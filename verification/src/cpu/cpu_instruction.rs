use vstd::prelude::*;

use crate::cpu::cpu::{Cpu, Xlen};

verus! {

/// The fields of a B-type instruction; `imm` is the sign-extended branch offset.
#[derive(Clone, Copy, Debug, PartialEq, Eq, Structural)]
pub struct InstructionTypeB {
    pub rs1: u8,
    pub rs2: u8,
    pub imm: u64,
}

/// The fields of an R-type instruction.
#[derive(Clone, Copy, Debug, PartialEq, Eq, Structural)]
pub struct InstructionTypeR {
    pub rd: u8,
    pub rs1: u8,
    pub rs2: u8,
}

/// The fields of an I-type instruction; `imm` is the sign-extended immediate.
#[derive(Clone, Copy, Debug, PartialEq, Eq, Structural)]
pub struct InstructionTypeI {
    pub rd: u8,
    pub rs1: u8,
    pub imm: i64,
}

/// The fields of a J-type instruction; `imm` is the sign-extended jump offset.
#[derive(Clone, Copy, Debug, PartialEq, Eq, Structural)]
pub struct InstructionTypeJ {
    pub rd: u8,
    pub imm: u64,
}

/// The fields of an S-type instruction; `imm` is the sign-extended offset.
#[derive(Clone, Copy, Debug, PartialEq, Eq, Structural)]
pub struct InstructionTypeS {
    pub rs1: u8,
    pub rs2: u8,
    pub imm: i64,
}

/// The fields of a U-type instruction; `imm` is the sign-extended upper immediate.
#[derive(Clone, Copy, Debug, PartialEq, Eq, Structural)]
pub struct InstructionTypeU {
    pub rd: u8,
    pub imm: u64,
}

/// The fields of a CSR instruction; `rs1` is also the 5-bit immediate of
/// the immediate forms.
#[derive(Clone, Copy, Debug, PartialEq, Eq, Structural)]
pub struct InstructionTypeCSR {
    pub rd: u8,
    pub rs1: u8,
    pub csr: u16,
}

/// The width of a memory access.
#[derive(Clone, Copy, Debug, PartialEq, Eq, Structural)]
pub enum Width {
    Byte,
    Half,
    Word,
    Double,
}

/// The integer operations on two operands, the second a register or an immediate.
#[derive(Clone, Copy, Debug, PartialEq, Eq, Structural)]
pub enum AluOp {
    Add,
    Sub,
    Sll,
    Slt,
    Sltu,
    Xor,
    Srl,
    Sra,
    Or,
    And,
    Mul,
    Mulh,
    Mulhsu,
    Mulhu,
    Div,
    Divu,
    Rem,
    Remu,
    Addw,
    Subw,
    Sllw,
    Srlw,
    Sraw,
    Mulw,
    Divw,
    Divuw,
    Remw,
    Remuw,
}

#[derive(Clone, Copy, Debug, PartialEq, Eq, Structural)]
pub enum BranchOp {
    Beq,
    Bne,
    Blt,
    Bge,
    Bltu,
    Bgeu,
}

#[derive(Clone, Copy, Debug, PartialEq, Eq, Structural)]
pub enum CsrOp {
    ReadWrite,
    ReadSet,
    ReadClear,
    ReadWriteImm,
    ReadSetImm,
    ReadClearImm,
}

#[derive(Clone, Copy, Debug, PartialEq, Eq, Structural)]
pub enum AmoOp {
    Swap,
    Add,
    Xor,
    And,
    Or,
    Min,
    Max,
    Minu,
    Maxu,
}

/// A decoded instruction: what is to be done. The operands stay in the
/// instruction word and are taken from it by the `parse_type_*` functions.
#[derive(Clone, Copy, Debug, PartialEq, Eq, Structural)]
pub enum Instruction {
    Load { width: Width, signed: bool },
    Store { width: Width },
    FloatLoad { width: Width },
    FloatStore { width: Width },
    Fence,
    OpImm { alu: AluOp },
    Op { alu: AluOp },
    Lui,
    Auipc,
    Jal,
    Jalr,
    Branch { branch: BranchOp },
    Csr { csr: CsrOp },
    LoadReserved { width: Width },
    StoreConditional { width: Width },
    Amo { amo: AmoOp, width: Width },
    Ecall,
    Ebreak,
    Sret,
    Mret,
    Wfi,
    SfenceVma,
    FmvWX,
}

/// The register fields of an instruction word are below 32, and the CSR
/// field is below 4096.
pub proof fn lemma_field_bounds(word: u32)
    ensures
        (((word & 0x00000f80) >> 7) as u8) < 32,
        (((word & 0x000f8000) >> 15) as u8) < 32,
        (((word & 0x01f00000) >> 20) as u8) < 32,
        (((word & 0xfff00000) >> 20) as u16) < 4096,
{
    assert((((word & 0x00000f80) >> 7) as u8) < 32 && (((word & 0x000f8000) >> 15) as u8) < 32 && (((
        word & 0x01f00000) >> 20) as u8) < 32 && (((word & 0xfff00000) >> 20) as u16) < 4096)
        by (bit_vector);
}

/// rd in bits 11:7, rs1 in bits 19:15, and bits 31:20 as a signed number.
pub open spec fn spec_parse_type_i(word: u32) -> InstructionTypeI {
    InstructionTypeI {
        rd: ((word & 0x00000f80) >> 7) as u8,
        rs1: ((word & 0x000f8000) >> 15) as u8,
        imm: ((word as i32) >> 20) as i64,
    }
}

#[verifier::when_used_as_spec(spec_parse_type_i)]
pub fn parse_type_i(word: u32) -> (r: InstructionTypeI)
    ensures
        r == spec_parse_type_i(word),
        r.rd < 32,
        r.rs1 < 32,
{
    proof {
        lemma_field_bounds(word);
    }
    InstructionTypeI {
        rd: ((word & 0x00000f80) >> 7) as u8,
        rs1: ((word & 0x000f8000) >> 15) as u8,
        imm: ((word as i32) >> 20) as i64,
    }
}

/// rd in bits 11:7; the offset has its bit 20 in bit 31, bits 10:1 in bits 30:21,
/// bit 11 in bit 20 and bits 19:12 in place, and is sign-extended.
pub open spec fn spec_parse_type_j(word: u32) -> InstructionTypeJ {
    InstructionTypeJ {
        rd: ((word & 0x00000f80) >> 7) as u8,
        imm: ((((word & 0x80000000) as i32 >> 11) as u32 | (word & 0x000ff000) | ((word & 0x00100000)
            >> 9) | ((word & 0x7fe00000) >> 20)) as i32 as i64 as u64),
    }
}

#[verifier::when_used_as_spec(spec_parse_type_j)]
pub fn parse_type_j(word: u32) -> (r: InstructionTypeJ)
    ensures
        r == spec_parse_type_j(word),
        r.rd < 32,
{
    proof {
        lemma_field_bounds(word);
    }
    InstructionTypeJ {
        rd: ((word & 0x00000f80) >> 7) as u8,
        imm: ((((word & 0x80000000) as i32 >> 11) as u32 | (word & 0x000ff000) | ((word & 0x00100000)
            >> 9) | ((word & 0x7fe00000) >> 20)) as i32 as i64 as u64),
    }
}

/// rs1 in bits 19:15, rs2 in bits 24:20; the offset has its bit 12 in bit 31,
/// bits 10:5 in bits 30:25, bits 4:1 in bits 11:8 and bit 11 in bit 7, and is
/// sign-extended.
pub open spec fn spec_parse_type_b(word: u32) -> InstructionTypeB {
    InstructionTypeB {
        rs1: ((word & 0x000f8000) >> 15) as u8,
        rs2: ((word & 0x01f00000) >> 20) as u8,
        imm: ((((word & 0x80000000) as i32 >> 19) as u32 | ((word & 0x00000080) << 4) | ((word
            & 0x7e000000) >> 20) | ((word & 0x00000f00) >> 7)) as i32 as i64 as u64),
    }
}

#[verifier::when_used_as_spec(spec_parse_type_b)]
pub fn parse_type_b(word: u32) -> (r: InstructionTypeB)
    ensures
        r == spec_parse_type_b(word),
        r.rs1 < 32,
        r.rs2 < 32,
{
    proof {
        lemma_field_bounds(word);
    }
    InstructionTypeB {
        rs1: ((word & 0x000f8000) >> 15) as u8,
        rs2: ((word & 0x01f00000) >> 20) as u8,
        imm: ((((word & 0x80000000) as i32 >> 19) as u32 | ((word & 0x00000080) << 4) | ((word
            & 0x7e000000) >> 20) | ((word & 0x00000f00) >> 7)) as i32 as i64 as u64),
    }
}

/// rs1 in bits 19:15, rs2 in bits 24:20; the offset has its bits 11:5 in bits
/// 31:25 and bits 4:0 in bits 11:7, and is sign-extended.
pub open spec fn spec_parse_type_s(word: u32) -> InstructionTypeS {
    InstructionTypeS {
        rs1: ((word & 0x000f8000) >> 15) as u8,
        rs2: ((word & 0x01f00000) >> 20) as u8,
        imm: (((word & 0xfe000000) as i32 >> 20) | ((word & 0x00000f80) as i32 >> 7)) as i64,
    }
}

#[verifier::when_used_as_spec(spec_parse_type_s)]
pub fn parse_type_s(word: u32) -> (r: InstructionTypeS)
    ensures
        r == spec_parse_type_s(word),
        r.rs1 < 32,
        r.rs2 < 32,
{
    proof {
        lemma_field_bounds(word);
    }
    InstructionTypeS {
        rs1: ((word & 0x000f8000) >> 15) as u8,
        rs2: ((word & 0x01f00000) >> 20) as u8,
        imm: (((word & 0xfe000000) as i32 >> 20) | ((word & 0x00000f80) as i32 >> 7)) as i64,
    }
}

/// rd in bits 11:7; bits 31:12 in place, sign-extended.
pub open spec fn spec_parse_type_u(word: u32) -> InstructionTypeU {
    InstructionTypeU {
        rd: ((word & 0x00000f80) >> 7) as u8,
        imm: ((word & 0xfffff000) as i32 as i64 as u64),
    }
}

#[verifier::when_used_as_spec(spec_parse_type_u)]
pub fn parse_type_u(word: u32) -> (r: InstructionTypeU)
    ensures
        r == spec_parse_type_u(word),
        r.rd < 32,
{
    proof {
        lemma_field_bounds(word);
    }
    InstructionTypeU {
        rd: ((word & 0x00000f80) >> 7) as u8,
        imm: ((word & 0xfffff000) as i32 as i64 as u64),
    }
}

/// rd in bits 11:7, rs1 in bits 19:15, rs2 in bits 24:20.
pub open spec fn spec_parse_type_r(word: u32) -> InstructionTypeR {
    InstructionTypeR {
        rd: ((word & 0x00000f80) >> 7) as u8,
        rs1: ((word & 0x000f8000) >> 15) as u8,
        rs2: ((word & 0x01f00000) >> 20) as u8,
    }
}

#[verifier::when_used_as_spec(spec_parse_type_r)]
pub fn parse_type_r(word: u32) -> (r: InstructionTypeR)
    ensures
        r == spec_parse_type_r(word),
        r.rd < 32,
        r.rs1 < 32,
        r.rs2 < 32,
{
    proof {
        lemma_field_bounds(word);
    }
    InstructionTypeR {
        rd: ((word & 0x00000f80) >> 7) as u8,
        rs1: ((word & 0x000f8000) >> 15) as u8,
        rs2: ((word & 0x01f00000) >> 20) as u8,
    }
}

/// rd in bits 11:7, rs1 (or the immediate) in bits 19:15, the CSR number in bits 31:20.
pub open spec fn spec_parse_type_csr(word: u32) -> InstructionTypeCSR {
    InstructionTypeCSR {
        rd: ((word & 0x00000f80) >> 7) as u8,
        rs1: ((word & 0x000f8000) >> 15) as u8,
        csr: ((word & 0xfff00000) >> 20) as u16,
    }
}

#[verifier::when_used_as_spec(spec_parse_type_csr)]
pub fn parse_type_csr(word: u32) -> (r: InstructionTypeCSR)
    ensures
        r == spec_parse_type_csr(word),
        r.rd < 32,
        r.rs1 < 32,
        r.csr < 4096,
{
    proof {
        lemma_field_bounds(word);
    }
    InstructionTypeCSR {
        rd: ((word & 0x00000f80) >> 7) as u8,
        rs1: ((word & 0x000f8000) >> 15) as u8,
        csr: ((word & 0xfff00000) >> 20) as u16,
    }
}

/// The R-type instruction word made of the given fields.
pub open spec fn spec_enc_r(funct7: u32, rs2: u32, rs1: u32, funct3: u32, rd: u32, opcode: u32) -> u32 {
    (funct7 << 25) | (rs2 << 20) | (rs1 << 15) | (funct3 << 12) | (rd << 7) | opcode
}

#[verifier::when_used_as_spec(spec_enc_r)]
pub fn enc_r(funct7: u32, rs2: u32, rs1: u32, funct3: u32, rd: u32, opcode: u32) -> (r: u32)
    ensures
        r == spec_enc_r(funct7, rs2, rs1, funct3, rd, opcode),
{
    (funct7 << 25) | (rs2 << 20) | (rs1 << 15) | (funct3 << 12) | (rd << 7) | opcode
}

/// The I-type instruction word made of the given fields; the immediate is the
/// low 12 bits of `imm`.
pub open spec fn spec_enc_i(imm: u32, rs1: u32, funct3: u32, rd: u32, opcode: u32) -> u32 {
    ((imm & 0xfff) << 20) | (rs1 << 15) | (funct3 << 12) | (rd << 7) | opcode
}

#[verifier::when_used_as_spec(spec_enc_i)]
pub fn enc_i(imm: u32, rs1: u32, funct3: u32, rd: u32, opcode: u32) -> (r: u32)
    ensures
        r == spec_enc_i(imm, rs1, funct3, rd, opcode),
{
    ((imm & 0xfff) << 20) | (rs1 << 15) | (funct3 << 12) | (rd << 7) | opcode
}

/// The S-type instruction word made of the given fields; the offset is the
/// low 12 bits of `imm`.
pub open spec fn spec_enc_s(imm: u32, rs2: u32, rs1: u32, funct3: u32, opcode: u32) -> u32 {
    (((imm >> 5) & 0x7f) << 25) | (rs2 << 20) | (rs1 << 15) | (funct3 << 12) | ((imm & 0x1f) << 7)
        | opcode
}

#[verifier::when_used_as_spec(spec_enc_s)]
pub fn enc_s(imm: u32, rs2: u32, rs1: u32, funct3: u32, opcode: u32) -> (r: u32)
    ensures
        r == spec_enc_s(imm, rs2, rs1, funct3, opcode),
{
    (((imm >> 5) & 0x7f) << 25) | (rs2 << 20) | (rs1 << 15) | (funct3 << 12) | ((imm & 0x1f) << 7)
        | opcode
}

/// The B-type instruction word made of the given fields; the offset is bits
/// 12:1 of `imm`.
pub open spec fn spec_enc_b(imm: u32, rs2: u32, rs1: u32, funct3: u32, opcode: u32) -> u32 {
    (((imm >> 12) & 0x1) << 31) | (((imm >> 5) & 0x3f) << 25) | (rs2 << 20) | (rs1 << 15) | (funct3
        << 12) | (((imm >> 1) & 0xf) << 8) | (((imm >> 11) & 0x1) << 7) | opcode
}

#[verifier::when_used_as_spec(spec_enc_b)]
pub fn enc_b(imm: u32, rs2: u32, rs1: u32, funct3: u32, opcode: u32) -> (r: u32)
    ensures
        r == spec_enc_b(imm, rs2, rs1, funct3, opcode),
{
    (((imm >> 12) & 0x1) << 31) | (((imm >> 5) & 0x3f) << 25) | (rs2 << 20) | (rs1 << 15) | (funct3
        << 12) | (((imm >> 1) & 0xf) << 8) | (((imm >> 11) & 0x1) << 7) | opcode
}

/// The U-type instruction word made of the given fields; the immediate is
/// bits 31:12 of `imm`.
pub open spec fn spec_enc_u(imm: u32, rd: u32, opcode: u32) -> u32 {
    (imm & 0xfffff000) | (rd << 7) | opcode
}

#[verifier::when_used_as_spec(spec_enc_u)]
pub fn enc_u(imm: u32, rd: u32, opcode: u32) -> (r: u32)
    ensures
        r == spec_enc_u(imm, rd, opcode),
{
    (imm & 0xfffff000) | (rd << 7) | opcode
}

/// The J-type instruction word made of the given fields; the offset is bits
/// 20:1 of `imm`.
pub open spec fn spec_enc_j(imm: u32, rd: u32, opcode: u32) -> u32 {
    (((imm >> 20) & 0x1) << 31) | (((imm >> 1) & 0x3ff) << 21) | (((imm >> 11) & 0x1) << 20) | (((imm
        >> 12) & 0xff) << 12) | (rd << 7) | opcode
}

#[verifier::when_used_as_spec(spec_enc_j)]
pub fn enc_j(imm: u32, rd: u32, opcode: u32) -> (r: u32)
    ensures
        r == spec_enc_j(imm, rd, opcode),
{
    (((imm >> 20) & 0x1) << 31) | (((imm >> 1) & 0x3ff) << 21) | (((imm >> 11) & 0x1) << 20) | (((imm
        >> 12) & 0xff) << 12) | (rd << 7) | opcode
}

/// The access width that a funct3 field of 0 to 3 selects.
pub open spec fn spec_width_of(funct3: u32) -> Option<Width> {
    if funct3 == 0 {
        Some(Width::Byte)
    } else if funct3 == 1 {
        Some(Width::Half)
    } else if funct3 == 2 {
        Some(Width::Word)
    } else if funct3 == 3 {
        Some(Width::Double)
    } else {
        None
    }
}

#[verifier::when_used_as_spec(spec_width_of)]
pub fn width_of(funct3: u32) -> (r: Option<Width>)
    ensures
        r == spec_width_of(funct3),
{
    if funct3 == 0 {
        Some(Width::Byte)
    } else if funct3 == 1 {
        Some(Width::Half)
    } else if funct3 == 2 {
        Some(Width::Word)
    } else if funct3 == 3 {
        Some(Width::Double)
    } else {
        None
    }
}

/// Loads: LB, LH, LW, LD, LBU, LHU, LWU by funct3.
pub open spec fn spec_opecode_03(word: u32) -> Option<Instruction> {
    let funct3: u32 = (word >> 12) & 0x7;
    if funct3 == 0 {
        Some(Instruction::Load { width: Width::Byte, signed: true })
    } else if funct3 == 1 {
        Some(Instruction::Load { width: Width::Half, signed: true })
    } else if funct3 == 2 {
        Some(Instruction::Load { width: Width::Word, signed: true })
    } else if funct3 == 3 {
        Some(Instruction::Load { width: Width::Double, signed: true })
    } else if funct3 == 4 {
        Some(Instruction::Load { width: Width::Byte, signed: false })
    } else if funct3 == 5 {
        Some(Instruction::Load { width: Width::Half, signed: false })
    } else if funct3 == 6 {
        Some(Instruction::Load { width: Width::Word, signed: false })
    } else {
        None
    }
}

#[verifier::when_used_as_spec(spec_opecode_03)]
pub fn opecode_03(word: u32) -> (r: Option<Instruction>)
    ensures
        r == spec_opecode_03(word),
{
    let funct3: u32 = (word >> 12) & 0x7;
    if funct3 == 0 {
        Some(Instruction::Load { width: Width::Byte, signed: true })
    } else if funct3 == 1 {
        Some(Instruction::Load { width: Width::Half, signed: true })
    } else if funct3 == 2 {
        Some(Instruction::Load { width: Width::Word, signed: true })
    } else if funct3 == 3 {
        Some(Instruction::Load { width: Width::Double, signed: true })
    } else if funct3 == 4 {
        Some(Instruction::Load { width: Width::Byte, signed: false })
    } else if funct3 == 5 {
        Some(Instruction::Load { width: Width::Half, signed: false })
    } else if funct3 == 6 {
        Some(Instruction::Load { width: Width::Word, signed: false })
    } else {
        None
    }
}

/// Floating-point loads: FLW and FLD.
pub open spec fn spec_opecode_07(word: u32) -> Option<Instruction> {
    let funct3: u32 = (word >> 12) & 0x7;
    if funct3 == 2 {
        Some(Instruction::FloatLoad { width: Width::Word })
    } else if funct3 == 3 {
        Some(Instruction::FloatLoad { width: Width::Double })
    } else {
        None
    }
}

#[verifier::when_used_as_spec(spec_opecode_07)]
pub fn opecode_07(word: u32) -> (r: Option<Instruction>)
    ensures
        r == spec_opecode_07(word),
{
    let funct3: u32 = (word >> 12) & 0x7;
    if funct3 == 2 {
        Some(Instruction::FloatLoad { width: Width::Word })
    } else if funct3 == 3 {
        Some(Instruction::FloatLoad { width: Width::Double })
    } else {
        None
    }
}

/// FENCE and FENCE.I.
pub open spec fn spec_opecode_0f(word: u32) -> Option<Instruction> {
    let funct3: u32 = (word >> 12) & 0x7;
    if funct3 == 0 || funct3 == 1 {
        Some(Instruction::Fence)
    } else {
        None
    }
}

#[verifier::when_used_as_spec(spec_opecode_0f)]
pub fn opecode_0f(word: u32) -> (r: Option<Instruction>)
    ensures
        r == spec_opecode_0f(word),
{
    let funct3: u32 = (word >> 12) & 0x7;
    if funct3 == 0 || funct3 == 1 {
        Some(Instruction::Fence)
    } else {
        None
    }
}

/// Register-immediate operations. The shifts carry a 6-bit shift amount in
/// bits 25:20, so that only bits 31:26 tell SRLI from SRAI.
pub open spec fn spec_opecode_13(word: u32) -> Option<Instruction> {
    let funct3: u32 = (word >> 12) & 0x7;
    let funct6: u32 = word >> 26;
    if funct3 == 0 {
        Some(Instruction::OpImm { alu: AluOp::Add })
    } else if funct3 == 1 {
        if funct6 == 0 {
            Some(Instruction::OpImm { alu: AluOp::Sll })
        } else {
            None
        }
    } else if funct3 == 2 {
        Some(Instruction::OpImm { alu: AluOp::Slt })
    } else if funct3 == 3 {
        Some(Instruction::OpImm { alu: AluOp::Sltu })
    } else if funct3 == 4 {
        Some(Instruction::OpImm { alu: AluOp::Xor })
    } else if funct3 == 5 {
        if funct6 == 0 {
            Some(Instruction::OpImm { alu: AluOp::Srl })
        } else if funct6 == 0x10 {
            Some(Instruction::OpImm { alu: AluOp::Sra })
        } else {
            None
        }
    } else if funct3 == 6 {
        Some(Instruction::OpImm { alu: AluOp::Or })
    } else {
        Some(Instruction::OpImm { alu: AluOp::And })
    }
}

#[verifier::when_used_as_spec(spec_opecode_13)]
pub fn opecode_13(word: u32) -> (r: Option<Instruction>)
    ensures
        r == spec_opecode_13(word),
{
    let funct3: u32 = (word >> 12) & 0x7;
    let funct6: u32 = word >> 26;
    if funct3 == 0 {
        Some(Instruction::OpImm { alu: AluOp::Add })
    } else if funct3 == 1 {
        if funct6 == 0 {
            Some(Instruction::OpImm { alu: AluOp::Sll })
        } else {
            None
        }
    } else if funct3 == 2 {
        Some(Instruction::OpImm { alu: AluOp::Slt })
    } else if funct3 == 3 {
        Some(Instruction::OpImm { alu: AluOp::Sltu })
    } else if funct3 == 4 {
        Some(Instruction::OpImm { alu: AluOp::Xor })
    } else if funct3 == 5 {
        if funct6 == 0 {
            Some(Instruction::OpImm { alu: AluOp::Srl })
        } else if funct6 == 0x10 {
            Some(Instruction::OpImm { alu: AluOp::Sra })
        } else {
            None
        }
    } else if funct3 == 6 {
        Some(Instruction::OpImm { alu: AluOp::Or })
    } else {
        Some(Instruction::OpImm { alu: AluOp::And })
    }
}

/// Register-immediate operations on 32-bit values: ADDIW, SLLIW, SRLIW, SRAIW.
pub open spec fn spec_opecode_1b(word: u32) -> Option<Instruction> {
    let funct3: u32 = (word >> 12) & 0x7;
    let funct7: u32 = word >> 25;
    if funct3 == 0 {
        Some(Instruction::OpImm { alu: AluOp::Addw })
    } else if funct3 == 1 && funct7 == 0 {
        Some(Instruction::OpImm { alu: AluOp::Sllw })
    } else if funct3 == 5 && funct7 == 0 {
        Some(Instruction::OpImm { alu: AluOp::Srlw })
    } else if funct3 == 5 && funct7 == 0x20 {
        Some(Instruction::OpImm { alu: AluOp::Sraw })
    } else {
        None
    }
}

#[verifier::when_used_as_spec(spec_opecode_1b)]
pub fn opecode_1b(word: u32) -> (r: Option<Instruction>)
    ensures
        r == spec_opecode_1b(word),
{
    let funct3: u32 = (word >> 12) & 0x7;
    let funct7: u32 = word >> 25;
    if funct3 == 0 {
        Some(Instruction::OpImm { alu: AluOp::Addw })
    } else if funct3 == 1 && funct7 == 0 {
        Some(Instruction::OpImm { alu: AluOp::Sllw })
    } else if funct3 == 5 && funct7 == 0 {
        Some(Instruction::OpImm { alu: AluOp::Srlw })
    } else if funct3 == 5 && funct7 == 0x20 {
        Some(Instruction::OpImm { alu: AluOp::Sraw })
    } else {
        None
    }
}

/// Stores: SB, SH, SW, SD by funct3.
pub open spec fn spec_opecode_23(word: u32) -> Option<Instruction> {
    let funct3: u32 = (word >> 12) & 0x7;
    if funct3 < 4 {
        match width_of(funct3) {
            Some(width) => Some(Instruction::Store { width }),
            None => None,
        }
    } else {
        None
    }
}

#[verifier::when_used_as_spec(spec_opecode_23)]
pub fn opecode_23(word: u32) -> (r: Option<Instruction>)
    ensures
        r == spec_opecode_23(word),
{
    let funct3: u32 = (word >> 12) & 0x7;
    if funct3 < 4 {
        match width_of(funct3) {
            Some(width) => Some(Instruction::Store { width }),
            None => None,
        }
    } else {
        None
    }
}

/// Floating-point stores: FSW and FSD.
pub open spec fn spec_opecode_27(word: u32) -> Option<Instruction> {
    let funct3: u32 = (word >> 12) & 0x7;
    if funct3 == 2 {
        Some(Instruction::FloatStore { width: Width::Word })
    } else if funct3 == 3 {
        Some(Instruction::FloatStore { width: Width::Double })
    } else {
        None
    }
}

#[verifier::when_used_as_spec(spec_opecode_27)]
pub fn opecode_27(word: u32) -> (r: Option<Instruction>)
    ensures
        r == spec_opecode_27(word),
{
    let funct3: u32 = (word >> 12) & 0x7;
    if funct3 == 2 {
        Some(Instruction::FloatStore { width: Width::Word })
    } else if funct3 == 3 {
        Some(Instruction::FloatStore { width: Width::Double })
    } else {
        None
    }
}

/// The read-modify-write operation that bits 31:27 of an atomic instruction select.
pub open spec fn spec_amo_of(funct5: u32) -> Option<AmoOp> {
    if funct5 == 1 {
        Some(AmoOp::Swap)
    } else if funct5 == 0 {
        Some(AmoOp::Add)
    } else if funct5 == 4 {
        Some(AmoOp::Xor)
    } else if funct5 == 12 {
        Some(AmoOp::And)
    } else if funct5 == 8 {
        Some(AmoOp::Or)
    } else if funct5 == 16 {
        Some(AmoOp::Min)
    } else if funct5 == 20 {
        Some(AmoOp::Max)
    } else if funct5 == 24 {
        Some(AmoOp::Minu)
    } else if funct5 == 28 {
        Some(AmoOp::Maxu)
    } else {
        None
    }
}

#[verifier::when_used_as_spec(spec_amo_of)]
pub fn amo_of(funct5: u32) -> (r: Option<AmoOp>)
    ensures
        r == spec_amo_of(funct5),
{
    if funct5 == 1 {
        Some(AmoOp::Swap)
    } else if funct5 == 0 {
        Some(AmoOp::Add)
    } else if funct5 == 4 {
        Some(AmoOp::Xor)
    } else if funct5 == 12 {
        Some(AmoOp::And)
    } else if funct5 == 8 {
        Some(AmoOp::Or)
    } else if funct5 == 16 {
        Some(AmoOp::Min)
    } else if funct5 == 20 {
        Some(AmoOp::Max)
    } else if funct5 == 24 {
        Some(AmoOp::Minu)
    } else if funct5 == 28 {
        Some(AmoOp::Maxu)
    } else {
        None
    }
}

/// Atomics: LR, SC and the AMOs, on words (funct3 2) and doublewords (funct3 3).
pub open spec fn spec_opecode_2f(word: u32) -> Option<Instruction> {
    let funct3: u32 = (word >> 12) & 0x7;
    let funct5: u32 = word >> 27;
    if funct3 == 2 || funct3 == 3 {
        let width: Width = if funct3 == 2 {
            Width::Word
        } else {
            Width::Double
        };
        if funct5 == 2 {
            Some(Instruction::LoadReserved { width })
        } else if funct5 == 3 {
            Some(Instruction::StoreConditional { width })
        } else {
            match amo_of(funct5) {
                Some(amo) => Some(Instruction::Amo { amo, width }),
                None => None,
            }
        }
    } else {
        None
    }
}

#[verifier::when_used_as_spec(spec_opecode_2f)]
pub fn opecode_2f(word: u32) -> (r: Option<Instruction>)
    ensures
        r == spec_opecode_2f(word),
{
    let funct3: u32 = (word >> 12) & 0x7;
    let funct5: u32 = word >> 27;
    if funct3 == 2 || funct3 == 3 {
        let width: Width = if funct3 == 2 {
            Width::Word
        } else {
            Width::Double
        };
        if funct5 == 2 {
            Some(Instruction::LoadReserved { width })
        } else if funct5 == 3 {
            Some(Instruction::StoreConditional { width })
        } else {
            match amo_of(funct5) {
                Some(amo) => Some(Instruction::Amo { amo, width }),
                None => None,
            }
        }
    } else {
        None
    }
}

/// Register-register operations, the M extension included.
pub open spec fn spec_opecode_33(word: u32) -> Option<Instruction> {
    let funct3: u32 = (word >> 12) & 0x7;
    let funct7: u32 = word >> 25;
    if funct7 == 0 {
        Some(
            Instruction::Op {
                alu: if funct3 == 0 {
                    AluOp::Add
                } else if funct3 == 1 {
                    AluOp::Sll
                } else if funct3 == 2 {
                    AluOp::Slt
                } else if funct3 == 3 {
                    AluOp::Sltu
                } else if funct3 == 4 {
                    AluOp::Xor
                } else if funct3 == 5 {
                    AluOp::Srl
                } else if funct3 == 6 {
                    AluOp::Or
                } else {
                    AluOp::And
                },
            },
        )
    } else if funct7 == 1 {
        Some(
            Instruction::Op {
                alu: if funct3 == 0 {
                    AluOp::Mul
                } else if funct3 == 1 {
                    AluOp::Mulh
                } else if funct3 == 2 {
                    AluOp::Mulhsu
                } else if funct3 == 3 {
                    AluOp::Mulhu
                } else if funct3 == 4 {
                    AluOp::Div
                } else if funct3 == 5 {
                    AluOp::Divu
                } else if funct3 == 6 {
                    AluOp::Rem
                } else {
                    AluOp::Remu
                },
            },
        )
    } else if funct7 == 0x20 && funct3 == 0 {
        Some(Instruction::Op { alu: AluOp::Sub })
    } else if funct7 == 0x20 && funct3 == 5 {
        Some(Instruction::Op { alu: AluOp::Sra })
    } else {
        None
    }
}

#[verifier::when_used_as_spec(spec_opecode_33)]
pub fn opecode_33(word: u32) -> (r: Option<Instruction>)
    ensures
        r == spec_opecode_33(word),
{
    let funct3: u32 = (word >> 12) & 0x7;
    let funct7: u32 = word >> 25;
    if funct7 == 0 {
        Some(
            Instruction::Op {
                alu: if funct3 == 0 {
                    AluOp::Add
                } else if funct3 == 1 {
                    AluOp::Sll
                } else if funct3 == 2 {
                    AluOp::Slt
                } else if funct3 == 3 {
                    AluOp::Sltu
                } else if funct3 == 4 {
                    AluOp::Xor
                } else if funct3 == 5 {
                    AluOp::Srl
                } else if funct3 == 6 {
                    AluOp::Or
                } else {
                    AluOp::And
                },
            },
        )
    } else if funct7 == 1 {
        Some(
            Instruction::Op {
                alu: if funct3 == 0 {
                    AluOp::Mul
                } else if funct3 == 1 {
                    AluOp::Mulh
                } else if funct3 == 2 {
                    AluOp::Mulhsu
                } else if funct3 == 3 {
                    AluOp::Mulhu
                } else if funct3 == 4 {
                    AluOp::Div
                } else if funct3 == 5 {
                    AluOp::Divu
                } else if funct3 == 6 {
                    AluOp::Rem
                } else {
                    AluOp::Remu
                },
            },
        )
    } else if funct7 == 0x20 && funct3 == 0 {
        Some(Instruction::Op { alu: AluOp::Sub })
    } else if funct7 == 0x20 && funct3 == 5 {
        Some(Instruction::Op { alu: AluOp::Sra })
    } else {
        None
    }
}

/// Register-register operations on 32-bit values.
pub open spec fn spec_opecode_3b(word: u32) -> Option<Instruction> {
    let funct3: u32 = (word >> 12) & 0x7;
    let funct7: u32 = word >> 25;
    if funct7 == 0 && funct3 == 0 {
        Some(Instruction::Op { alu: AluOp::Addw })
    } else if funct7 == 0 && funct3 == 1 {
        Some(Instruction::Op { alu: AluOp::Sllw })
    } else if funct7 == 0 && funct3 == 5 {
        Some(Instruction::Op { alu: AluOp::Srlw })
    } else if funct7 == 1 && funct3 == 0 {
        Some(Instruction::Op { alu: AluOp::Mulw })
    } else if funct7 == 1 && funct3 == 4 {
        Some(Instruction::Op { alu: AluOp::Divw })
    } else if funct7 == 1 && funct3 == 5 {
        Some(Instruction::Op { alu: AluOp::Divuw })
    } else if funct7 == 1 && funct3 == 6 {
        Some(Instruction::Op { alu: AluOp::Remw })
    } else if funct7 == 1 && funct3 == 7 {
        Some(Instruction::Op { alu: AluOp::Remuw })
    } else if funct7 == 0x20 && funct3 == 0 {
        Some(Instruction::Op { alu: AluOp::Subw })
    } else if funct7 == 0x20 && funct3 == 5 {
        Some(Instruction::Op { alu: AluOp::Sraw })
    } else {
        None
    }
}

#[verifier::when_used_as_spec(spec_opecode_3b)]
pub fn opecode_3b(word: u32) -> (r: Option<Instruction>)
    ensures
        r == spec_opecode_3b(word),
{
    let funct3: u32 = (word >> 12) & 0x7;
    let funct7: u32 = word >> 25;
    if funct7 == 0 && funct3 == 0 {
        Some(Instruction::Op { alu: AluOp::Addw })
    } else if funct7 == 0 && funct3 == 1 {
        Some(Instruction::Op { alu: AluOp::Sllw })
    } else if funct7 == 0 && funct3 == 5 {
        Some(Instruction::Op { alu: AluOp::Srlw })
    } else if funct7 == 1 && funct3 == 0 {
        Some(Instruction::Op { alu: AluOp::Mulw })
    } else if funct7 == 1 && funct3 == 4 {
        Some(Instruction::Op { alu: AluOp::Divw })
    } else if funct7 == 1 && funct3 == 5 {
        Some(Instruction::Op { alu: AluOp::Divuw })
    } else if funct7 == 1 && funct3 == 6 {
        Some(Instruction::Op { alu: AluOp::Remw })
    } else if funct7 == 1 && funct3 == 7 {
        Some(Instruction::Op { alu: AluOp::Remuw })
    } else if funct7 == 0x20 && funct3 == 0 {
        Some(Instruction::Op { alu: AluOp::Subw })
    } else if funct7 == 0x20 && funct3 == 5 {
        Some(Instruction::Op { alu: AluOp::Sraw })
    } else {
        None
    }
}

/// Floating-point operations: only FMV.W.X is implemented.
pub open spec fn spec_opecode_53(word: u32) -> Option<Instruction> {
    let funct3: u32 = (word >> 12) & 0x7;
    let funct7: u32 = word >> 25;
    if funct7 == 0x78 && funct3 == 0 {
        Some(Instruction::FmvWX)
    } else {
        None
    }
}

#[verifier::when_used_as_spec(spec_opecode_53)]
pub fn opecode_53(word: u32) -> (r: Option<Instruction>)
    ensures
        r == spec_opecode_53(word),
{
    let funct3: u32 = (word >> 12) & 0x7;
    let funct7: u32 = word >> 25;
    if funct7 == 0x78 && funct3 == 0 {
        Some(Instruction::FmvWX)
    } else {
        None
    }
}

/// Conditional branches.
pub open spec fn spec_opecode_63(word: u32) -> Option<Instruction> {
    let funct3: u32 = (word >> 12) & 0x7;
    if funct3 == 0 {
        Some(Instruction::Branch { branch: BranchOp::Beq })
    } else if funct3 == 1 {
        Some(Instruction::Branch { branch: BranchOp::Bne })
    } else if funct3 == 4 {
        Some(Instruction::Branch { branch: BranchOp::Blt })
    } else if funct3 == 5 {
        Some(Instruction::Branch { branch: BranchOp::Bge })
    } else if funct3 == 6 {
        Some(Instruction::Branch { branch: BranchOp::Bltu })
    } else if funct3 == 7 {
        Some(Instruction::Branch { branch: BranchOp::Bgeu })
    } else {
        None
    }
}

#[verifier::when_used_as_spec(spec_opecode_63)]
pub fn opecode_63(word: u32) -> (r: Option<Instruction>)
    ensures
        r == spec_opecode_63(word),
{
    let funct3: u32 = (word >> 12) & 0x7;
    if funct3 == 0 {
        Some(Instruction::Branch { branch: BranchOp::Beq })
    } else if funct3 == 1 {
        Some(Instruction::Branch { branch: BranchOp::Bne })
    } else if funct3 == 4 {
        Some(Instruction::Branch { branch: BranchOp::Blt })
    } else if funct3 == 5 {
        Some(Instruction::Branch { branch: BranchOp::Bge })
    } else if funct3 == 6 {
        Some(Instruction::Branch { branch: BranchOp::Bltu })
    } else if funct3 == 7 {
        Some(Instruction::Branch { branch: BranchOp::Bgeu })
    } else {
        None
    }
}

/// System instructions: the CSR accesses by funct3, and under funct3 0 the
/// environment calls, trap returns, WFI and SFENCE.VMA by bits 31:20.
pub open spec fn spec_opecode_73(word: u32) -> Option<Instruction> {
    let funct3: u32 = (word >> 12) & 0x7;
    let funct12: u32 = word >> 20;
    if funct3 == 0 {
        if funct12 >> 5 == 0x09 {
            Some(Instruction::SfenceVma)
        } else if funct12 == 0x000 {
            Some(Instruction::Ecall)
        } else if funct12 == 0x001 {
            Some(Instruction::Ebreak)
        } else if funct12 == 0x102 {
            Some(Instruction::Sret)
        } else if funct12 == 0x302 {
            Some(Instruction::Mret)
        } else if funct12 == 0x105 {
            Some(Instruction::Wfi)
        } else {
            None
        }
    } else if funct3 == 1 {
        Some(Instruction::Csr { csr: CsrOp::ReadWrite })
    } else if funct3 == 2 {
        Some(Instruction::Csr { csr: CsrOp::ReadSet })
    } else if funct3 == 3 {
        Some(Instruction::Csr { csr: CsrOp::ReadClear })
    } else if funct3 == 5 {
        Some(Instruction::Csr { csr: CsrOp::ReadWriteImm })
    } else if funct3 == 6 {
        Some(Instruction::Csr { csr: CsrOp::ReadSetImm })
    } else if funct3 == 7 {
        Some(Instruction::Csr { csr: CsrOp::ReadClearImm })
    } else {
        None
    }
}

#[verifier::when_used_as_spec(spec_opecode_73)]
pub fn opecode_73(word: u32) -> (r: Option<Instruction>)
    ensures
        r == spec_opecode_73(word),
{
    let funct3: u32 = (word >> 12) & 0x7;
    let funct12: u32 = word >> 20;
    if funct3 == 0 {
        if funct12 >> 5 == 0x09 {
            Some(Instruction::SfenceVma)
        } else if funct12 == 0x000 {
            Some(Instruction::Ecall)
        } else if funct12 == 0x001 {
            Some(Instruction::Ebreak)
        } else if funct12 == 0x102 {
            Some(Instruction::Sret)
        } else if funct12 == 0x302 {
            Some(Instruction::Mret)
        } else if funct12 == 0x105 {
            Some(Instruction::Wfi)
        } else {
            None
        }
    } else if funct3 == 1 {
        Some(Instruction::Csr { csr: CsrOp::ReadWrite })
    } else if funct3 == 2 {
        Some(Instruction::Csr { csr: CsrOp::ReadSet })
    } else if funct3 == 3 {
        Some(Instruction::Csr { csr: CsrOp::ReadClear })
    } else if funct3 == 5 {
        Some(Instruction::Csr { csr: CsrOp::ReadWriteImm })
    } else if funct3 == 6 {
        Some(Instruction::Csr { csr: CsrOp::ReadSetImm })
    } else if funct3 == 7 {
        Some(Instruction::Csr { csr: CsrOp::ReadClearImm })
    } else {
        None
    }
}

/// The instruction that a 32-bit word encodes, by its opcode (bits 6:0) and
/// then by funct3, funct7 or bits 31:20; `None` for a word that encodes none.
pub open spec fn spec_decode(word: u32) -> Option<Instruction> {
    let opcode: u32 = word & 0x7f;
    if opcode == 0x03 {
        opecode_03(word)
    } else if opcode == 0x07 {
        opecode_07(word)
    } else if opcode == 0x0f {
        opecode_0f(word)
    } else if opcode == 0x13 {
        opecode_13(word)
    } else if opcode == 0x17 {
        Some(Instruction::Auipc)
    } else if opcode == 0x1b {
        opecode_1b(word)
    } else if opcode == 0x23 {
        opecode_23(word)
    } else if opcode == 0x27 {
        opecode_27(word)
    } else if opcode == 0x2f {
        opecode_2f(word)
    } else if opcode == 0x33 {
        opecode_33(word)
    } else if opcode == 0x37 {
        Some(Instruction::Lui)
    } else if opcode == 0x3b {
        opecode_3b(word)
    } else if opcode == 0x53 {
        opecode_53(word)
    } else if opcode == 0x63 {
        opecode_63(word)
    } else if opcode == 0x67 {
        Some(Instruction::Jalr)
    } else if opcode == 0x6f {
        Some(Instruction::Jal)
    } else if opcode == 0x73 {
        opecode_73(word)
    } else {
        None
    }
}

#[verifier::when_used_as_spec(spec_decode)]
pub fn decode(word: u32) -> (r: Option<Instruction>)
    ensures
        r == spec_decode(word),
{
    let opcode: u32 = word & 0x7f;
    if opcode == 0x03 {
        opecode_03(word)
    } else if opcode == 0x07 {
        opecode_07(word)
    } else if opcode == 0x0f {
        opecode_0f(word)
    } else if opcode == 0x13 {
        opecode_13(word)
    } else if opcode == 0x17 {
        Some(Instruction::Auipc)
    } else if opcode == 0x1b {
        opecode_1b(word)
    } else if opcode == 0x23 {
        opecode_23(word)
    } else if opcode == 0x27 {
        opecode_27(word)
    } else if opcode == 0x2f {
        opecode_2f(word)
    } else if opcode == 0x33 {
        opecode_33(word)
    } else if opcode == 0x37 {
        Some(Instruction::Lui)
    } else if opcode == 0x3b {
        opecode_3b(word)
    } else if opcode == 0x53 {
        opecode_53(word)
    } else if opcode == 0x63 {
        opecode_63(word)
    } else if opcode == 0x67 {
        Some(Instruction::Jalr)
    } else if opcode == 0x6f {
        Some(Instruction::Jal)
    } else if opcode == 0x73 {
        opecode_73(word)
    } else {
        None
    }
}

/// The low XLEN bits of `data`, zero-extended.
pub open spec fn spec_zext(data: i64, xlen: Xlen) -> u64 {
    match xlen {
        Xlen::X32 => (data as u64) & 0x0000_0000_ffff_ffff,
        Xlen::X64 => data as u64,
    }
}

#[verifier::when_used_as_spec(spec_zext)]
pub fn zext(data: i64, xlen: Xlen) -> (r: u64)
    ensures
        r == spec_zext(data, xlen),
{
    match xlen {
        Xlen::X32 => (data as u64) & 0x0000_0000_ffff_ffff,
        Xlen::X64 => data as u64,
    }
}

/// The low XLEN bits of `data`, sign-extended.
pub open spec fn spec_sext(data: i64, xlen: Xlen) -> i64 {
    match xlen {
        Xlen::X32 => data as i32 as i64,
        Xlen::X64 => data,
    }
}

#[verifier::when_used_as_spec(spec_sext)]
pub fn sext(data: i64, xlen: Xlen) -> (r: i64)
    ensures
        r == spec_sext(data, xlen),
{
    match xlen {
        Xlen::X32 => data as i32 as i64,
        Xlen::X64 => data,
    }
}

/// The shift amount that the low bits of `b` give: 5 bits under XLEN 32, 6
/// bits under XLEN 64.
pub open spec fn spec_shamt(b: i64, xlen: Xlen) -> u32 {
    match xlen {
        Xlen::X32 => (b & 0x1f) as u32,
        Xlen::X64 => (b & 0x3f) as u32,
    }
}

#[verifier::when_used_as_spec(spec_shamt)]
pub fn shamt(b: i64, xlen: Xlen) -> (s: u32)
    ensures
        s == spec_shamt(b, xlen),
        s < 64,
        xlen == Xlen::X32 ==> s < 32,
{
    assert(((b & 0x1f) as u32) < 32 && ((b & 0x3f) as u32) < 64) by (bit_vector);
    match xlen {
        Xlen::X32 => (b & 0x1f) as u32,
        Xlen::X64 => (b & 0x3f) as u32,
    }
}

/// The upper 64 bits of the 128-bit product of two signed numbers.
pub open spec fn spec_mulh64(a: i64, b: i64) -> i64 {
    ((((a as i128) * (b as i128)) as i128) >> 64) as i64
}

#[verifier::when_used_as_spec(spec_mulh64)]
pub fn mulh64(a: i64, b: i64) -> (r: i64)
    ensures
        r == spec_mulh64(a, b),
{
    assert(-0x4000_0000_0000_0000_0000_0000_0000_0000 <= (a as i128) * (b as i128)
        <= 0x4000_0000_0000_0000_0000_0000_0000_0000) by (nonlinear_arith)
        requires
            -0x8000_0000_0000_0000 <= a as i128 <= 0x8000_0000_0000_0000,
            -0x8000_0000_0000_0000 <= b as i128 <= 0x8000_0000_0000_0000,
    ;
    let p: i128 = (a as i128) * (b as i128);
    (p >> 64) as i64
}

/// The upper 64 bits of the 128-bit product of a signed and an unsigned number.
pub open spec fn spec_mulhsu64(a: i64, b: u64) -> i64 {
    ((((a as i128) * (b as i128)) as i128) >> 64) as i64
}

#[verifier::when_used_as_spec(spec_mulhsu64)]
pub fn mulhsu64(a: i64, b: u64) -> (r: i64)
    ensures
        r == spec_mulhsu64(a, b),
{
    assert(-0x8000_0000_0000_0000_0000_0000_0000_0000 <= (a as i128) * (b as i128)
        <= 0x8000_0000_0000_0000_0000_0000_0000_0000 - 1) by (nonlinear_arith)
        requires
            -0x8000_0000_0000_0000 <= a as i128 <= 0x7fff_ffff_ffff_ffff,
            0 <= b as i128 <= 0xffff_ffff_ffff_ffff,
    ;
    let p: i128 = (a as i128) * (b as i128);
    (p >> 64) as i64
}

/// The upper 64 bits of the 128-bit product of two unsigned numbers.
pub open spec fn spec_mulhu64(a: u64, b: u64) -> i64 {
    ((((a as u128) * (b as u128)) as u128) >> 64) as i64
}

#[verifier::when_used_as_spec(spec_mulhu64)]
pub fn mulhu64(a: u64, b: u64) -> (r: i64)
    ensures
        r == spec_mulhu64(a, b),
{
    assert((a as u128) * (b as u128) <= 0xffff_ffff_ffff_ffff_ffff_ffff_ffff_ffff)
        by (nonlinear_arith)
        requires
            0 <= a as u128 <= 0xffff_ffff_ffff_ffff,
            0 <= b as u128 <= 0xffff_ffff_ffff_ffff,
    ;
    let p: u128 = (a as u128) * (b as u128);
    (p >> 64) as i64
}

/// The quotient of the signed division, rounded towards zero. A division by
/// zero gives -1 (all ones); the one overflow, of the least number by -1,
/// gives the dividend.
pub open spec fn spec_div_signed(a: i64, b: i64) -> i64 {
    match a.checked_div(b) {
        Some(q) => q,
        None => if b == 0 {
            -1i64
        } else {
            a
        },
    }
}

#[verifier::when_used_as_spec(spec_div_signed)]
pub fn div_signed(a: i64, b: i64) -> (r: i64)
    ensures
        r == spec_div_signed(a, b),
{
    match a.checked_div(b) {
        Some(q) => q,
        None => if b == 0 {
            -1i64
        } else {
            a
        },
    }
}

/// The remainder of the signed division, with the sign of the dividend. A
/// division by zero gives the dividend; the one overflow gives 0.
pub open spec fn spec_rem_signed(a: i64, b: i64) -> i64 {
    match a.checked_rem(b) {
        Some(r) => r,
        None => if b == 0 {
            a
        } else {
            0
        },
    }
}

#[verifier::when_used_as_spec(spec_rem_signed)]
pub fn rem_signed(a: i64, b: i64) -> (m: i64)
    ensures
        m == spec_rem_signed(a, b),
{
    match a.checked_rem(b) {
        Some(r) => r,
        None => if b == 0 {
            a
        } else {
            0
        },
    }
}

/// `div_signed` on 32-bit numbers.
pub open spec fn spec_div_signed32(a: i32, b: i32) -> i32 {
    match a.checked_div(b) {
        Some(q) => q,
        None => if b == 0 {
            -1i32
        } else {
            a
        },
    }
}

#[verifier::when_used_as_spec(spec_div_signed32)]
pub fn div_signed32(a: i32, b: i32) -> (r: i32)
    ensures
        r == spec_div_signed32(a, b),
{
    match a.checked_div(b) {
        Some(q) => q,
        None => if b == 0 {
            -1i32
        } else {
            a
        },
    }
}

/// `rem_signed` on 32-bit numbers.
pub open spec fn spec_rem_signed32(a: i32, b: i32) -> i32 {
    match a.checked_rem(b) {
        Some(r) => r,
        None => if b == 0 {
            a
        } else {
            0
        },
    }
}

#[verifier::when_used_as_spec(spec_rem_signed32)]
pub fn rem_signed32(a: i32, b: i32) -> (m: i32)
    ensures
        m == spec_rem_signed32(a, b),
{
    match a.checked_rem(b) {
        Some(r) => r,
        None => if b == 0 {
            a
        } else {
            0
        },
    }
}

/// 1 for true, 0 for false.
pub open spec fn spec_bool_value(b: bool) -> i64 {
    if b {
        1
    } else {
        0
    }
}

#[verifier::when_used_as_spec(spec_bool_value)]
pub fn bool_value(b: bool) -> (r: i64)
    ensures
        r == spec_bool_value(b),
{
    if b {
        1
    } else {
        0
    }
}

/// The value that an integer operation gives for the operands `a` and `b`.
/// Operations on XLEN bits take the low XLEN bits of the operands and
/// sign-extend the result from XLEN bits; the `w` operations take the low 32
/// bits and sign-extend from 32. Shifts take their amount from the low bits
/// of `b`.
pub open spec fn spec_alu(op: AluOp, xlen: Xlen, a: i64, b: i64) -> i64 {
    match op {
        AluOp::Add => sext(a.wrapping_add(b), xlen),
        AluOp::Sub => sext(a.wrapping_sub(b), xlen),
        AluOp::Sll => sext(a << shamt(b, xlen), xlen),
        AluOp::Slt => bool_value(sext(a, xlen) < sext(b, xlen)),
        AluOp::Sltu => bool_value(zext(a, xlen) < zext(b, xlen)),
        AluOp::Xor => sext(a ^ b, xlen),
        AluOp::Srl => sext((zext(a, xlen) >> shamt(b, xlen)) as i64, xlen),
        AluOp::Sra => sext(sext(a, xlen) >> shamt(b, xlen), xlen),
        AluOp::Or => sext(a | b, xlen),
        AluOp::And => sext(a & b, xlen),
        AluOp::Mul => sext(a.wrapping_mul(b), xlen),
        AluOp::Mulh => match xlen {
            Xlen::X64 => mulh64(a, b),
            Xlen::X32 => ((a as i32 as i64).wrapping_mul(b as i32 as i64) >> 32u32) as i32 as i64,
        },
        AluOp::Mulhsu => match xlen {
            Xlen::X64 => mulhsu64(a, b as u64),
            Xlen::X32 => ((a as i32 as i64).wrapping_mul(b as u32 as i64) >> 32u32) as i32 as i64,
        },
        AluOp::Mulhu => match xlen {
            Xlen::X64 => mulhu64(a as u64, b as u64),
            Xlen::X32 => ((a as u32 as u64).wrapping_mul(b as u32 as u64) >> 32u32) as i32 as i64,
        },
        AluOp::Div => sext(div_signed(sext(a, xlen), sext(b, xlen)), xlen),
        AluOp::Divu => if zext(b, xlen) == 0 {
            -1i64
        } else {
            sext((zext(a, xlen) / zext(b, xlen)) as i64, xlen)
        },
        AluOp::Rem => sext(rem_signed(sext(a, xlen), sext(b, xlen)), xlen),
        AluOp::Remu => if zext(b, xlen) == 0 {
            sext(a, xlen)
        } else {
            sext((zext(a, xlen) % zext(b, xlen)) as i64, xlen)
        },
        AluOp::Addw => a.wrapping_add(b) as i32 as i64,
        AluOp::Subw => a.wrapping_sub(b) as i32 as i64,
        AluOp::Sllw => (a << shamt(b, Xlen::X32)) as i32 as i64,
        AluOp::Srlw => ((a as u32) >> shamt(b, Xlen::X32)) as i32 as i64,
        AluOp::Sraw => ((a as i32) >> shamt(b, Xlen::X32)) as i64,
        AluOp::Mulw => a.wrapping_mul(b) as i32 as i64,
        AluOp::Divw => div_signed32(a as i32, b as i32) as i64,
        AluOp::Divuw => if (b as u32) == 0 {
            -1i64
        } else {
            ((a as u32) / (b as u32)) as i32 as i64
        },
        AluOp::Remw => rem_signed32(a as i32, b as i32) as i64,
        AluOp::Remuw => if (b as u32) == 0 {
            a as i32 as i64
        } else {
            ((a as u32) % (b as u32)) as i32 as i64
        },
    }
}

#[verifier::when_used_as_spec(spec_alu)]
pub fn alu(op: AluOp, xlen: Xlen, a: i64, b: i64) -> (r: i64)
    ensures
        r == spec_alu(op, xlen, a, b),
{
    match op {
        AluOp::Add => sext(a.wrapping_add(b), xlen),
        AluOp::Sub => sext(a.wrapping_sub(b), xlen),
        AluOp::Sll => sext(a << shamt(b, xlen), xlen),
        AluOp::Slt => bool_value(sext(a, xlen) < sext(b, xlen)),
        AluOp::Sltu => bool_value(zext(a, xlen) < zext(b, xlen)),
        AluOp::Xor => sext(a ^ b, xlen),
        AluOp::Srl => sext((zext(a, xlen) >> shamt(b, xlen)) as i64, xlen),
        AluOp::Sra => sext(sext(a, xlen) >> shamt(b, xlen), xlen),
        AluOp::Or => sext(a | b, xlen),
        AluOp::And => sext(a & b, xlen),
        AluOp::Mul => sext(a.wrapping_mul(b), xlen),
        AluOp::Mulh => match xlen {
            Xlen::X64 => mulh64(a, b),
            Xlen::X32 => ((a as i32 as i64).wrapping_mul(b as i32 as i64) >> 32u32) as i32 as i64,
        },
        AluOp::Mulhsu => match xlen {
            Xlen::X64 => mulhsu64(a, b as u64),
            Xlen::X32 => ((a as i32 as i64).wrapping_mul(b as u32 as i64) >> 32u32) as i32 as i64,
        },
        AluOp::Mulhu => match xlen {
            Xlen::X64 => mulhu64(a as u64, b as u64),
            Xlen::X32 => ((a as u32 as u64).wrapping_mul(b as u32 as u64) >> 32u32) as i32 as i64,
        },
        AluOp::Div => sext(div_signed(sext(a, xlen), sext(b, xlen)), xlen),
        AluOp::Divu => if zext(b, xlen) == 0 {
            -1i64
        } else {
            sext((zext(a, xlen) / zext(b, xlen)) as i64, xlen)
        },
        AluOp::Rem => sext(rem_signed(sext(a, xlen), sext(b, xlen)), xlen),
        AluOp::Remu => if zext(b, xlen) == 0 {
            sext(a, xlen)
        } else {
            sext((zext(a, xlen) % zext(b, xlen)) as i64, xlen)
        },
        AluOp::Addw => a.wrapping_add(b) as i32 as i64,
        AluOp::Subw => a.wrapping_sub(b) as i32 as i64,
        AluOp::Sllw => (a << shamt(b, Xlen::X32)) as i32 as i64,
        AluOp::Srlw => ((a as u32) >> shamt(b, Xlen::X32)) as i32 as i64,
        AluOp::Sraw => ((a as i32) >> shamt(b, Xlen::X32)) as i64,
        AluOp::Mulw => a.wrapping_mul(b) as i32 as i64,
        AluOp::Divw => div_signed32(a as i32, b as i32) as i64,
        AluOp::Divuw => if (b as u32) == 0 {
            -1i64
        } else {
            ((a as u32) / (b as u32)) as i32 as i64
        },
        AluOp::Remw => rem_signed32(a as i32, b as i32) as i64,
        AluOp::Remuw => if (b as u32) == 0 {
            a as i32 as i64
        } else {
            ((a as u32) % (b as u32)) as i32 as i64
        },
    }
}

/// Whether a branch is taken for the operands `a` and `b`.
pub open spec fn spec_branch_taken(op: BranchOp, xlen: Xlen, a: i64, b: i64) -> bool {
    match op {
        BranchOp::Beq => a == b,
        BranchOp::Bne => a != b,
        BranchOp::Blt => sext(a, xlen) < sext(b, xlen),
        BranchOp::Bge => sext(a, xlen) >= sext(b, xlen),
        BranchOp::Bltu => zext(a, xlen) < zext(b, xlen),
        BranchOp::Bgeu => zext(a, xlen) >= zext(b, xlen),
    }
}

#[verifier::when_used_as_spec(spec_branch_taken)]
pub fn branch_taken(op: BranchOp, xlen: Xlen, a: i64, b: i64) -> (taken: bool)
    ensures
        taken == spec_branch_taken(op, xlen, a, b),
{
    match op {
        BranchOp::Beq => a == b,
        BranchOp::Bne => a != b,
        BranchOp::Blt => sext(a, xlen) < sext(b, xlen),
        BranchOp::Bge => sext(a, xlen) >= sext(b, xlen),
        BranchOp::Bltu => zext(a, xlen) < zext(b, xlen),
        BranchOp::Bgeu => zext(a, xlen) >= zext(b, xlen),
    }
}

/// The word that a 32-bit AMO stores, when memory held `t` and the register holds `x`.
pub open spec fn spec_amo_word(op: AmoOp, t: u32, x: i64) -> u32 {
    match op {
        AmoOp::Swap => x as u32,
        AmoOp::Add => (t as i32 as i64).wrapping_add(x) as u32,
        AmoOp::Xor => ((t as i32 as i64) ^ x) as u32,
        AmoOp::And => ((t as i32 as i64) & x) as u32,
        AmoOp::Or => ((t as i32 as i64) | x) as u32,
        AmoOp::Min => if (t as i32) < (x as i32) {
            t
        } else {
            x as u32
        },
        AmoOp::Max => if (t as i32) > (x as i32) {
            t
        } else {
            x as u32
        },
        AmoOp::Minu => if t < (x as u32) {
            t
        } else {
            x as u32
        },
        AmoOp::Maxu => if t > (x as u32) {
            t
        } else {
            x as u32
        },
    }
}

#[verifier::when_used_as_spec(spec_amo_word)]
pub fn amo_word(op: AmoOp, t: u32, x: i64) -> (r: u32)
    ensures
        r == spec_amo_word(op, t, x),
{
    match op {
        AmoOp::Swap => x as u32,
        AmoOp::Add => (t as i32 as i64).wrapping_add(x) as u32,
        AmoOp::Xor => ((t as i32 as i64) ^ x) as u32,
        AmoOp::And => ((t as i32 as i64) & x) as u32,
        AmoOp::Or => ((t as i32 as i64) | x) as u32,
        AmoOp::Min => if (t as i32) < (x as i32) {
            t
        } else {
            x as u32
        },
        AmoOp::Max => if (t as i32) > (x as i32) {
            t
        } else {
            x as u32
        },
        AmoOp::Minu => if t < (x as u32) {
            t
        } else {
            x as u32
        },
        AmoOp::Maxu => if t > (x as u32) {
            t
        } else {
            x as u32
        },
    }
}

/// The doubleword that a 64-bit AMO stores, when memory held `t` and the register holds `x`.
pub open spec fn spec_amo_double(op: AmoOp, t: u64, x: i64) -> u64 {
    match op {
        AmoOp::Swap => x as u64,
        AmoOp::Add => (t as i64).wrapping_add(x) as u64,
        AmoOp::Xor => ((t as i64) ^ x) as u64,
        AmoOp::And => ((t as i64) & x) as u64,
        AmoOp::Or => ((t as i64) | x) as u64,
        AmoOp::Min => if (t as i64) < x {
            t
        } else {
            x as u64
        },
        AmoOp::Max => if (t as i64) > x {
            t
        } else {
            x as u64
        },
        AmoOp::Minu => if t < (x as u64) {
            t
        } else {
            x as u64
        },
        AmoOp::Maxu => if t > (x as u64) {
            t
        } else {
            x as u64
        },
    }
}

#[verifier::when_used_as_spec(spec_amo_double)]
pub fn amo_double(op: AmoOp, t: u64, x: i64) -> (r: u64)
    ensures
        r == spec_amo_double(op, t, x),
{
    match op {
        AmoOp::Swap => x as u64,
        AmoOp::Add => (t as i64).wrapping_add(x) as u64,
        AmoOp::Xor => ((t as i64) ^ x) as u64,
        AmoOp::And => ((t as i64) & x) as u64,
        AmoOp::Or => ((t as i64) | x) as u64,
        AmoOp::Min => if (t as i64) < x {
            t
        } else {
            x as u64
        },
        AmoOp::Max => if (t as i64) > x {
            t
        } else {
            x as u64
        },
        AmoOp::Minu => if t < (x as u64) {
            t
        } else {
            x as u64
        },
        AmoOp::Maxu => if t > (x as u64) {
            t
        } else {
            x as u64
        },
    }
}

/// The ABI name of the integer register `r`; the number is taken modulo 32.
pub open spec fn spec_register_name(r: u8) -> &'static str {
    if r % 32 == 0 {
        "zero"
    } else if r % 32 == 1 {
        "ra"
    } else if r % 32 == 2 {
        "sp"
    } else if r % 32 == 3 {
        "gp"
    } else if r % 32 == 4 {
        "tp"
    } else if r % 32 == 5 {
        "t0"
    } else if r % 32 == 6 {
        "t1"
    } else if r % 32 == 7 {
        "t2"
    } else if r % 32 == 8 {
        "s0"
    } else if r % 32 == 9 {
        "s1"
    } else if r % 32 == 10 {
        "a0"
    } else if r % 32 == 11 {
        "a1"
    } else if r % 32 == 12 {
        "a2"
    } else if r % 32 == 13 {
        "a3"
    } else if r % 32 == 14 {
        "a4"
    } else if r % 32 == 15 {
        "a5"
    } else if r % 32 == 16 {
        "a6"
    } else if r % 32 == 17 {
        "a7"
    } else if r % 32 == 18 {
        "s2"
    } else if r % 32 == 19 {
        "s3"
    } else if r % 32 == 20 {
        "s4"
    } else if r % 32 == 21 {
        "s5"
    } else if r % 32 == 22 {
        "s6"
    } else if r % 32 == 23 {
        "s7"
    } else if r % 32 == 24 {
        "s8"
    } else if r % 32 == 25 {
        "s9"
    } else if r % 32 == 26 {
        "s10"
    } else if r % 32 == 27 {
        "s11"
    } else if r % 32 == 28 {
        "t3"
    } else if r % 32 == 29 {
        "t4"
    } else if r % 32 == 30 {
        "t5"
    } else {
        "t6"
    }
}

#[verifier::when_used_as_spec(spec_register_name)]
pub fn register_name(r: u8) -> (name: &'static str)
    ensures
        name == spec_register_name(r),
{
    if r % 32 == 0 {
        "zero"
    } else if r % 32 == 1 {
        "ra"
    } else if r % 32 == 2 {
        "sp"
    } else if r % 32 == 3 {
        "gp"
    } else if r % 32 == 4 {
        "tp"
    } else if r % 32 == 5 {
        "t0"
    } else if r % 32 == 6 {
        "t1"
    } else if r % 32 == 7 {
        "t2"
    } else if r % 32 == 8 {
        "s0"
    } else if r % 32 == 9 {
        "s1"
    } else if r % 32 == 10 {
        "a0"
    } else if r % 32 == 11 {
        "a1"
    } else if r % 32 == 12 {
        "a2"
    } else if r % 32 == 13 {
        "a3"
    } else if r % 32 == 14 {
        "a4"
    } else if r % 32 == 15 {
        "a5"
    } else if r % 32 == 16 {
        "a6"
    } else if r % 32 == 17 {
        "a7"
    } else if r % 32 == 18 {
        "s2"
    } else if r % 32 == 19 {
        "s3"
    } else if r % 32 == 20 {
        "s4"
    } else if r % 32 == 21 {
        "s5"
    } else if r % 32 == 22 {
        "s6"
    } else if r % 32 == 23 {
        "s7"
    } else if r % 32 == 24 {
        "s8"
    } else if r % 32 == 25 {
        "s9"
    } else if r % 32 == 26 {
        "s10"
    } else if r % 32 == 27 {
        "s11"
    } else if r % 32 == 28 {
        "t3"
    } else if r % 32 == 29 {
        "t4"
    } else if r % 32 == 30 {
        "t5"
    } else {
        "t6"
    }
}

/// The mnemonic of an instruction.
pub open spec fn spec_mnemonic(instruction: Instruction) -> &'static str {
    match instruction {
        Instruction::Load { width, signed } => match width {
            Width::Byte => if signed {
                "lb"
            } else {
                "lbu"
            },
            Width::Half => if signed {
                "lh"
            } else {
                "lhu"
            },
            Width::Word => if signed {
                "lw"
            } else {
                "lwu"
            },
            Width::Double => "ld",
        },
        Instruction::Store { width } => match width {
            Width::Byte => "sb",
            Width::Half => "sh",
            Width::Word => "sw",
            Width::Double => "sd",
        },
        Instruction::FloatLoad { width } => match width {
            Width::Double => "fld",
            _ => "flw",
        },
        Instruction::FloatStore { width } => match width {
            Width::Double => "fsd",
            _ => "fsw",
        },
        Instruction::Fence => "fence",
        Instruction::OpImm { alu } => match alu {
            AluOp::Add => "addi",
            AluOp::Sub => "sub",
            AluOp::Sll => "slli",
            AluOp::Slt => "slti",
            AluOp::Sltu => "sltiu",
            AluOp::Xor => "xori",
            AluOp::Srl => "srli",
            AluOp::Sra => "srai",
            AluOp::Or => "ori",
            AluOp::And => "andi",
            AluOp::Mul => "mul",
            AluOp::Mulh => "mulh",
            AluOp::Mulhsu => "mulhsu",
            AluOp::Mulhu => "mulhu",
            AluOp::Div => "div",
            AluOp::Divu => "divu",
            AluOp::Rem => "rem",
            AluOp::Remu => "remu",
            AluOp::Addw => "addiw",
            AluOp::Subw => "subw",
            AluOp::Sllw => "slliw",
            AluOp::Srlw => "srliw",
            AluOp::Sraw => "sraiw",
            AluOp::Mulw => "mulw",
            AluOp::Divw => "divw",
            AluOp::Divuw => "divuw",
            AluOp::Remw => "remw",
            AluOp::Remuw => "remuw",
        },
        Instruction::Op { alu } => match alu {
            AluOp::Add => "add",
            AluOp::Sub => "sub",
            AluOp::Sll => "sll",
            AluOp::Slt => "slt",
            AluOp::Sltu => "sltu",
            AluOp::Xor => "xor",
            AluOp::Srl => "srl",
            AluOp::Sra => "sra",
            AluOp::Or => "or",
            AluOp::And => "and",
            AluOp::Mul => "mul",
            AluOp::Mulh => "mulh",
            AluOp::Mulhsu => "mulhsu",
            AluOp::Mulhu => "mulhu",
            AluOp::Div => "div",
            AluOp::Divu => "divu",
            AluOp::Rem => "rem",
            AluOp::Remu => "remu",
            AluOp::Addw => "addw",
            AluOp::Subw => "subw",
            AluOp::Sllw => "sllw",
            AluOp::Srlw => "srlw",
            AluOp::Sraw => "sraw",
            AluOp::Mulw => "mulw",
            AluOp::Divw => "divw",
            AluOp::Divuw => "divuw",
            AluOp::Remw => "remw",
            AluOp::Remuw => "remuw",
        },
        Instruction::Lui => "lui",
        Instruction::Auipc => "auipc",
        Instruction::Jal => "jal",
        Instruction::Jalr => "jalr",
        Instruction::Branch { branch } => match branch {
            BranchOp::Beq => "beq",
            BranchOp::Bne => "bne",
            BranchOp::Blt => "blt",
            BranchOp::Bge => "bge",
            BranchOp::Bltu => "bltu",
            BranchOp::Bgeu => "bgeu",
        },
        Instruction::Csr { csr } => match csr {
            CsrOp::ReadWrite => "csrrw",
            CsrOp::ReadSet => "csrrs",
            CsrOp::ReadClear => "csrrc",
            CsrOp::ReadWriteImm => "csrrwi",
            CsrOp::ReadSetImm => "csrrsi",
            CsrOp::ReadClearImm => "csrrci",
        },
        Instruction::LoadReserved { width } => match width {
            Width::Double => "lr.d",
            _ => "lr.w",
        },
        Instruction::StoreConditional { width } => match width {
            Width::Double => "sc.d",
            _ => "sc.w",
        },
        Instruction::Amo { amo, width } => match width {
            Width::Double => match amo {
                AmoOp::Swap => "amoswap.d",
                AmoOp::Add => "amoadd.d",
                AmoOp::Xor => "amoxor.d",
                AmoOp::And => "amoand.d",
                AmoOp::Or => "amoor.d",
                AmoOp::Min => "amomin.d",
                AmoOp::Max => "amomax.d",
                AmoOp::Minu => "amominu.d",
                AmoOp::Maxu => "amomaxu.d",
            },
            _ => match amo {
                AmoOp::Swap => "amoswap.w",
                AmoOp::Add => "amoadd.w",
                AmoOp::Xor => "amoxor.w",
                AmoOp::And => "amoand.w",
                AmoOp::Or => "amoor.w",
                AmoOp::Min => "amomin.w",
                AmoOp::Max => "amomax.w",
                AmoOp::Minu => "amominu.w",
                AmoOp::Maxu => "amomaxu.w",
            },
        },
        Instruction::Ecall => "ecall",
        Instruction::Ebreak => "ebreak",
        Instruction::Sret => "sret",
        Instruction::Mret => "mret",
        Instruction::Wfi => "wfi",
        Instruction::SfenceVma => "sfence.vma",
        Instruction::FmvWX => "fmv.w.x",
    }
}

#[verifier::when_used_as_spec(spec_mnemonic)]
pub fn mnemonic(instruction: Instruction) -> (name: &'static str)
    ensures
        name == spec_mnemonic(instruction),
{
    match instruction {
        Instruction::Load { width, signed } => match width {
            Width::Byte => if signed {
                "lb"
            } else {
                "lbu"
            },
            Width::Half => if signed {
                "lh"
            } else {
                "lhu"
            },
            Width::Word => if signed {
                "lw"
            } else {
                "lwu"
            },
            Width::Double => "ld",
        },
        Instruction::Store { width } => match width {
            Width::Byte => "sb",
            Width::Half => "sh",
            Width::Word => "sw",
            Width::Double => "sd",
        },
        Instruction::FloatLoad { width } => match width {
            Width::Double => "fld",
            _ => "flw",
        },
        Instruction::FloatStore { width } => match width {
            Width::Double => "fsd",
            _ => "fsw",
        },
        Instruction::Fence => "fence",
        Instruction::OpImm { alu } => match alu {
            AluOp::Add => "addi",
            AluOp::Sub => "sub",
            AluOp::Sll => "slli",
            AluOp::Slt => "slti",
            AluOp::Sltu => "sltiu",
            AluOp::Xor => "xori",
            AluOp::Srl => "srli",
            AluOp::Sra => "srai",
            AluOp::Or => "ori",
            AluOp::And => "andi",
            AluOp::Mul => "mul",
            AluOp::Mulh => "mulh",
            AluOp::Mulhsu => "mulhsu",
            AluOp::Mulhu => "mulhu",
            AluOp::Div => "div",
            AluOp::Divu => "divu",
            AluOp::Rem => "rem",
            AluOp::Remu => "remu",
            AluOp::Addw => "addiw",
            AluOp::Subw => "subw",
            AluOp::Sllw => "slliw",
            AluOp::Srlw => "srliw",
            AluOp::Sraw => "sraiw",
            AluOp::Mulw => "mulw",
            AluOp::Divw => "divw",
            AluOp::Divuw => "divuw",
            AluOp::Remw => "remw",
            AluOp::Remuw => "remuw",
        },
        Instruction::Op { alu } => match alu {
            AluOp::Add => "add",
            AluOp::Sub => "sub",
            AluOp::Sll => "sll",
            AluOp::Slt => "slt",
            AluOp::Sltu => "sltu",
            AluOp::Xor => "xor",
            AluOp::Srl => "srl",
            AluOp::Sra => "sra",
            AluOp::Or => "or",
            AluOp::And => "and",
            AluOp::Mul => "mul",
            AluOp::Mulh => "mulh",
            AluOp::Mulhsu => "mulhsu",
            AluOp::Mulhu => "mulhu",
            AluOp::Div => "div",
            AluOp::Divu => "divu",
            AluOp::Rem => "rem",
            AluOp::Remu => "remu",
            AluOp::Addw => "addw",
            AluOp::Subw => "subw",
            AluOp::Sllw => "sllw",
            AluOp::Srlw => "srlw",
            AluOp::Sraw => "sraw",
            AluOp::Mulw => "mulw",
            AluOp::Divw => "divw",
            AluOp::Divuw => "divuw",
            AluOp::Remw => "remw",
            AluOp::Remuw => "remuw",
        },
        Instruction::Lui => "lui",
        Instruction::Auipc => "auipc",
        Instruction::Jal => "jal",
        Instruction::Jalr => "jalr",
        Instruction::Branch { branch } => match branch {
            BranchOp::Beq => "beq",
            BranchOp::Bne => "bne",
            BranchOp::Blt => "blt",
            BranchOp::Bge => "bge",
            BranchOp::Bltu => "bltu",
            BranchOp::Bgeu => "bgeu",
        },
        Instruction::Csr { csr } => match csr {
            CsrOp::ReadWrite => "csrrw",
            CsrOp::ReadSet => "csrrs",
            CsrOp::ReadClear => "csrrc",
            CsrOp::ReadWriteImm => "csrrwi",
            CsrOp::ReadSetImm => "csrrsi",
            CsrOp::ReadClearImm => "csrrci",
        },
        Instruction::LoadReserved { width } => match width {
            Width::Double => "lr.d",
            _ => "lr.w",
        },
        Instruction::StoreConditional { width } => match width {
            Width::Double => "sc.d",
            _ => "sc.w",
        },
        Instruction::Amo { amo, width } => match width {
            Width::Double => match amo {
                AmoOp::Swap => "amoswap.d",
                AmoOp::Add => "amoadd.d",
                AmoOp::Xor => "amoxor.d",
                AmoOp::And => "amoand.d",
                AmoOp::Or => "amoor.d",
                AmoOp::Min => "amomin.d",
                AmoOp::Max => "amomax.d",
                AmoOp::Minu => "amominu.d",
                AmoOp::Maxu => "amomaxu.d",
            },
            _ => match amo {
                AmoOp::Swap => "amoswap.w",
                AmoOp::Add => "amoadd.w",
                AmoOp::Xor => "amoxor.w",
                AmoOp::And => "amoand.w",
                AmoOp::Or => "amoor.w",
                AmoOp::Min => "amomin.w",
                AmoOp::Max => "amomax.w",
                AmoOp::Minu => "amominu.w",
                AmoOp::Maxu => "amomaxu.w",
            },
        },
        Instruction::Ecall => "ecall",
        Instruction::Ebreak => "ebreak",
        Instruction::Sret => "sret",
        Instruction::Mret => "mret",
        Instruction::Wfi => "wfi",
        Instruction::SfenceVma => "sfence.vma",
        Instruction::FmvWX => "fmv.w.x",
    }
}

/// The low XLEN bits of `data`, zero-extended, for the register width of `cpu`.
pub fn unsigned(cpu: &Cpu, data: i64) -> (r: u64)
    ensures
        r == spec_zext(data, cpu.xlen),
{
    zext(data, cpu.xlen)
}

/// The low XLEN bits of `data`, sign-extended, for the register width of `cpu`.
pub fn signed(cpu: &Cpu, data: i64) -> (r: i64)
    ensures
        r == spec_sext(data, cpu.xlen),
{
    sext(data, cpu.xlen)
}

/// Decoding gives back what was encoded: the fields of an R-type word are
/// the registers it was made of, and its opcode and function fields are in
/// their places.
pub proof fn lemma_enc_r_fields(funct7: u32, rs2: u32, rs1: u32, funct3: u32, rd: u32, opcode: u32)
    requires
        funct7 < 128,
        rs2 < 32,
        rs1 < 32,
        funct3 < 8,
        rd < 32,
        opcode < 128,
    ensures
        spec_parse_type_r(spec_enc_r(funct7, rs2, rs1, funct3, rd, opcode)) == (InstructionTypeR {
            rd: rd as u8,
            rs1: rs1 as u8,
            rs2: rs2 as u8,
        }),
        spec_enc_r(funct7, rs2, rs1, funct3, rd, opcode) & 0x7f == opcode,
        (spec_enc_r(funct7, rs2, rs1, funct3, rd, opcode) >> 12) & 0x7 == funct3,
        spec_enc_r(funct7, rs2, rs1, funct3, rd, opcode) >> 25 == funct7,
{
    let w = spec_enc_r(funct7, rs2, rs1, funct3, rd, opcode);
    assert(((w & 0x00000f80) >> 7) as u8 == rd as u8 && ((w & 0x000f8000) >> 15) as u8 == rs1 as u8
        && ((w & 0x01f00000) >> 20) as u8 == rs2 as u8 && w & 0x7f == opcode && (w >> 12) & 0x7
        == funct3 && w >> 25 == funct7) by (bit_vector)
        requires
            w == (funct7 << 25) | (rs2 << 20) | (rs1 << 15) | (funct3 << 12) | (rd << 7) | opcode,
            funct7 < 128,
            rs2 < 32,
            rs1 < 32,
            funct3 < 8,
            rd < 32,
            opcode < 128,
    ;
}

/// Decoding gives back what was encoded: the fields of an I-type word are
/// the registers it was made of and the immediate, where the immediate is a
/// signed number of 12 bits.
pub proof fn lemma_enc_i_fields(imm: u32, rs1: u32, funct3: u32, rd: u32, opcode: u32)
    requires
        -2048 <= (imm as i32) < 2048,
        rs1 < 32,
        funct3 < 8,
        rd < 32,
        opcode < 128,
    ensures
        spec_parse_type_i(spec_enc_i(imm, rs1, funct3, rd, opcode)) == (InstructionTypeI {
            rd: rd as u8,
            rs1: rs1 as u8,
            imm: imm as i32 as i64,
        }),
        spec_enc_i(imm, rs1, funct3, rd, opcode) & 0x7f == opcode,
        (spec_enc_i(imm, rs1, funct3, rd, opcode) >> 12) & 0x7 == funct3,
{
    let w = spec_enc_i(imm, rs1, funct3, rd, opcode);
    assert(((w & 0x00000f80) >> 7) as u8 == rd as u8 && ((w & 0x000f8000) >> 15) as u8 == rs1 as u8
        && ((w as i32) >> 20) as i64 == imm as i32 as i64 && w & 0x7f == opcode && (w >> 12) & 0x7
        == funct3) by (bit_vector)
        requires
            w == ((imm & 0xfff) << 20) | (rs1 << 15) | (funct3 << 12) | (rd << 7) | opcode,
            -2048 <= (imm as i32) < 2048,
            rs1 < 32,
            funct3 < 8,
            rd < 32,
            opcode < 128,
    ;
}

/// Decoding gives back what was encoded: the fields of an S-type word are
/// the registers it was made of and the offset, where the offset is a
/// signed number of 12 bits.
pub proof fn lemma_enc_s_fields(imm: u32, rs2: u32, rs1: u32, funct3: u32, opcode: u32)
    requires
        -2048 <= (imm as i32) < 2048,
        rs2 < 32,
        rs1 < 32,
        funct3 < 8,
        opcode < 128,
    ensures
        spec_parse_type_s(spec_enc_s(imm, rs2, rs1, funct3, opcode)) == (InstructionTypeS {
            rs1: rs1 as u8,
            rs2: rs2 as u8,
            imm: imm as i32 as i64,
        }),
        spec_enc_s(imm, rs2, rs1, funct3, opcode) & 0x7f == opcode,
        (spec_enc_s(imm, rs2, rs1, funct3, opcode) >> 12) & 0x7 == funct3,
{
    let w = spec_enc_s(imm, rs2, rs1, funct3, opcode);
    assert(((w & 0x000f8000) >> 15) as u8 == rs1 as u8 && ((w & 0x01f00000) >> 20) as u8 == rs2 as u8
        && (((w & 0xfe000000) as i32 >> 20) | ((w & 0x00000f80) as i32 >> 7)) as i64 == imm as i32
        as i64 && w & 0x7f == opcode && (w >> 12) & 0x7 == funct3) by (bit_vector)
        requires
            w == (((imm >> 5) & 0x7f) << 25) | (rs2 << 20) | (rs1 << 15) | (funct3 << 12) | ((imm
                & 0x1f) << 7) | opcode,
            -2048 <= (imm as i32) < 2048,
            rs2 < 32,
            rs1 < 32,
            funct3 < 8,
            opcode < 128,
    ;
}

/// Decoding gives back what was encoded: the fields of a B-type word are
/// the registers it was made of and the offset, where the offset is an
/// even signed number of 13 bits.
pub proof fn lemma_enc_b_fields(imm: u32, rs2: u32, rs1: u32, funct3: u32, opcode: u32)
    requires
        -4096 <= (imm as i32) < 4096,
        imm & 0x1 == 0,
        rs2 < 32,
        rs1 < 32,
        funct3 < 8,
        opcode < 128,
    ensures
        spec_parse_type_b(spec_enc_b(imm, rs2, rs1, funct3, opcode)) == (InstructionTypeB {
            rs1: rs1 as u8,
            rs2: rs2 as u8,
            imm: imm as i32 as i64 as u64,
        }),
        spec_enc_b(imm, rs2, rs1, funct3, opcode) & 0x7f == opcode,
        (spec_enc_b(imm, rs2, rs1, funct3, opcode) >> 12) & 0x7 == funct3,
{
    let w = spec_enc_b(imm, rs2, rs1, funct3, opcode);
    assert(((w & 0x000f8000) >> 15) as u8 == rs1 as u8 && ((w & 0x01f00000) >> 20) as u8 == rs2 as u8
        && ((((w & 0x80000000) as i32 >> 19) as u32 | ((w & 0x00000080) << 4) | ((w & 0x7e000000)
        >> 20) | ((w & 0x00000f00) >> 7)) as i32 as i64 as u64) == imm as i32 as i64 as u64 && w
        & 0x7f == opcode && (w >> 12) & 0x7 == funct3) by (bit_vector)
        requires
            w == (((imm >> 12) & 0x1) << 31) | (((imm >> 5) & 0x3f) << 25) | (rs2 << 20) | (rs1
                << 15) | (funct3 << 12) | (((imm >> 1) & 0xf) << 8) | (((imm >> 11) & 0x1) << 7)
                | opcode,
            -4096 <= (imm as i32) < 4096,
            imm & 0x1 == 0,
            rs2 < 32,
            rs1 < 32,
            funct3 < 8,
            opcode < 128,
    ;
}

/// Decoding gives back what was encoded: the fields of a U-type word are
/// the register it was made of and the immediate, where the low 12 bits of
/// the immediate are zero.
pub proof fn lemma_enc_u_fields(imm: u32, rd: u32, opcode: u32)
    requires
        imm & 0xfff == 0,
        rd < 32,
        opcode < 128,
    ensures
        spec_parse_type_u(spec_enc_u(imm, rd, opcode)) == (InstructionTypeU {
            rd: rd as u8,
            imm: imm as i32 as i64 as u64,
        }),
        spec_enc_u(imm, rd, opcode) & 0x7f == opcode,
{
    let w = spec_enc_u(imm, rd, opcode);
    assert(((w & 0x00000f80) >> 7) as u8 == rd as u8 && ((w & 0xfffff000) as i32 as i64 as u64)
        == imm as i32 as i64 as u64 && w & 0x7f == opcode) by (bit_vector)
        requires
            w == (imm & 0xfffff000) | (rd << 7) | opcode,
            imm & 0xfff == 0,
            rd < 32,
            opcode < 128,
    ;
}

/// Decoding gives back what was encoded: the fields of a J-type word are
/// the register it was made of and the offset, where the offset is an even
/// signed number of 21 bits.
pub proof fn lemma_enc_j_fields(imm: u32, rd: u32, opcode: u32)
    requires
        -0x10_0000 <= (imm as i32) < 0x10_0000,
        imm & 0x1 == 0,
        rd < 32,
        opcode < 128,
    ensures
        spec_parse_type_j(spec_enc_j(imm, rd, opcode)) == (InstructionTypeJ {
            rd: rd as u8,
            imm: imm as i32 as i64 as u64,
        }),
        spec_enc_j(imm, rd, opcode) & 0x7f == opcode,
{
    let w = spec_enc_j(imm, rd, opcode);
    assert(((w & 0x00000f80) >> 7) as u8 == rd as u8 && ((((w & 0x80000000) as i32 >> 11) as u32 | (
        w & 0x000ff000) | ((w & 0x00100000) >> 9) | ((w & 0x7fe00000) >> 20)) as i32 as i64 as u64)
        == imm as i32 as i64 as u64 && w & 0x7f == opcode) by (bit_vector)
        requires
            w == (((imm >> 20) & 0x1) << 31) | (((imm >> 1) & 0x3ff) << 21) | (((imm >> 11) & 0x1)
                << 20) | (((imm >> 12) & 0xff) << 12) | (rd << 7) | opcode,
            -0x10_0000 <= (imm as i32) < 0x10_0000,
            imm & 0x1 == 0,
            rd < 32,
            opcode < 128,
    ;
}

} // verus!
