//! The RV64I instruction decoder: a total function from 32-bit words to
//! a sum of decoded instructions or a decode error, with the immediate
//! of each encoding format sign-extended exactly as the ISA lays it out.

use vstd::prelude::*;
use crate::cpu::Reg;

verus! {

/// A word that did not decode: either its low 7 bits name no major
/// opcode, or the sub-fields within a known opcode match no encoding.
#[derive(Copy, Clone, PartialEq, Eq, Structural, Debug)]
pub enum Error {
    UnknownOpcode(u32),
    UnknownInstruction(Opcode, u32),
    Test,
}

/// The 13 major opcodes of RV64I that this core recognizes.
#[derive(Copy, Clone, PartialEq, Eq, Structural, Debug)]
pub enum Opcode {
    Lui,
    Auipc,
    Jal,
    Jalr,
    Branch,
    Load,
    Store,
    OpImm,
    OpImm32,
    Op,
    Op32,
    MiscMem,
    System,
}

impl Opcode {
    /// The major opcode named by the low 7 bits of an instruction word.
    pub open spec fn spec_from_bits(value: u32) -> Result<Opcode, Error> {
        if value == 0b0110111 {
            Ok(Opcode::Lui)
        } else if value == 0b0010111 {
            Ok(Opcode::Auipc)
        } else if value == 0b1101111 {
            Ok(Opcode::Jal)
        } else if value == 0b1100111 {
            Ok(Opcode::Jalr)
        } else if value == 0b1100011 {
            Ok(Opcode::Branch)
        } else if value == 0b0000011 {
            Ok(Opcode::Load)
        } else if value == 0b0100011 {
            Ok(Opcode::Store)
        } else if value == 0b0010011 {
            Ok(Opcode::OpImm)
        } else if value == 0b0011011 {
            Ok(Opcode::OpImm32)
        } else if value == 0b0110011 {
            Ok(Opcode::Op)
        } else if value == 0b0111011 {
            Ok(Opcode::Op32)
        } else if value == 0b0001111 {
            Ok(Opcode::MiscMem)
        } else if value == 0b1110011 {
            Ok(Opcode::System)
        } else {
            Err(Error::UnknownOpcode(value))
        }
    }

    /// Decode the major opcode field.
    pub fn from_bits(value: u32) -> (r: Result<Opcode, Error>)
        ensures
            r == Opcode::spec_from_bits(value),
    {
        match value {
            0b0110111u32 => Ok(Opcode::Lui),
            0b0010111u32 => Ok(Opcode::Auipc),
            0b1101111u32 => Ok(Opcode::Jal),
            0b1100111u32 => Ok(Opcode::Jalr),
            0b1100011u32 => Ok(Opcode::Branch),
            0b0000011u32 => Ok(Opcode::Load),
            0b0100011u32 => Ok(Opcode::Store),
            0b0010011u32 => Ok(Opcode::OpImm),
            0b0011011u32 => Ok(Opcode::OpImm32),
            0b0110011u32 => Ok(Opcode::Op),
            0b0111011u32 => Ok(Opcode::Op32),
            0b0001111u32 => Ok(Opcode::MiscMem),
            0b1110011u32 => Ok(Opcode::System),
            _ => Err(Error::UnknownOpcode(value)),
        }
    }
}

/// A decoded RV64I instruction. Each variant carries exactly the fields
/// its semantics read; immediates are already sign-extended to 32 bits.
#[derive(Copy, Clone, PartialEq, Eq, Structural, Debug)]
pub enum Instruction {
    Lui { rd: Reg, imm: i32 },
    Auipc { rd: Reg, imm: i32 },
    Jal { rd: Reg, imm: i32 },
    Jalr { rd: Reg, rs1: Reg, imm: i32 },
    Beq { rs1: Reg, rs2: Reg, imm: i32 },
    Bne { rs1: Reg, rs2: Reg, imm: i32 },
    Blt { rs1: Reg, rs2: Reg, imm: i32 },
    Bge { rs1: Reg, rs2: Reg, imm: i32 },
    Bltu { rs1: Reg, rs2: Reg, imm: i32 },
    Bgeu { rs1: Reg, rs2: Reg, imm: i32 },
    Lb { rd: Reg, rs1: Reg, imm: i32 },
    Lh { rd: Reg, rs1: Reg, imm: i32 },
    Lw { rd: Reg, rs1: Reg, imm: i32 },
    Lbu { rd: Reg, rs1: Reg, imm: i32 },
    Lhu { rd: Reg, rs1: Reg, imm: i32 },
    Lwu { rd: Reg, rs1: Reg, imm: i32 },
    Ld { rd: Reg, rs1: Reg, imm: i32 },
    Sb { rs1: Reg, rs2: Reg, imm: i32 },
    Sh { rs1: Reg, rs2: Reg, imm: i32 },
    Sw { rs1: Reg, rs2: Reg, imm: i32 },
    Sd { rs1: Reg, rs2: Reg, imm: i32 },
    Addi { rd: Reg, rs1: Reg, imm: i32 },
    Slti { rd: Reg, rs1: Reg, imm: i32 },
    Sltiu { rd: Reg, rs1: Reg, imm: i32 },
    Xori { rd: Reg, rs1: Reg, imm: i32 },
    Ori { rd: Reg, rs1: Reg, imm: i32 },
    Andi { rd: Reg, rs1: Reg, imm: i32 },
    Slli { rd: Reg, rs1: Reg, shamt: i32 },
    Srli { rd: Reg, rs1: Reg, shamt: i32 },
    Srai { rd: Reg, rs1: Reg, shamt: i32 },
    Addiw { rd: Reg, rs1: Reg, imm: i32 },
    Slliw { rd: Reg, rs1: Reg, shamt: i32 },
    Srliw { rd: Reg, rs1: Reg, shamt: i32 },
    Sraiw { rd: Reg, rs1: Reg, shamt: i32 },
    Add { rd: Reg, rs1: Reg, rs2: Reg },
    Sub { rd: Reg, rs1: Reg, rs2: Reg },
    Sll { rd: Reg, rs1: Reg, rs2: Reg },
    Slt { rd: Reg, rs1: Reg, rs2: Reg },
    Sltu { rd: Reg, rs1: Reg, rs2: Reg },
    Xor { rd: Reg, rs1: Reg, rs2: Reg },
    Srl { rd: Reg, rs1: Reg, rs2: Reg },
    Sra { rd: Reg, rs1: Reg, rs2: Reg },
    Or { rd: Reg, rs1: Reg, rs2: Reg },
    And { rd: Reg, rs1: Reg, rs2: Reg },
    Addw { rd: Reg, rs1: Reg, rs2: Reg },
    Subw { rd: Reg, rs1: Reg, rs2: Reg },
    Sllw { rd: Reg, rs1: Reg, rs2: Reg },
    Srlw { rd: Reg, rs1: Reg, rs2: Reg },
    Sraw { rd: Reg, rs1: Reg, rs2: Reg },
    Fence {},
    Ecall,
    Ebreak,
    Sret,
    Mret,
    Csrrw { rd: Reg, rs1: Reg, csr: u16 },
    Csrrs { rd: Reg, rs1: Reg, csr: u16 },
    Csrrc { rd: Reg, rs1: Reg, csr: u16 },
    Csrrwi { rd: Reg, uimm: u32, csr: u16 },
    Csrrsi { rd: Reg, uimm: u32, csr: u16 },
    Csrrci { rd: Reg, uimm: u32, csr: u16 },
}

/// The `rd` field, bits 11:7, as a register name.
pub open spec fn rd_of(w: u32) -> Reg {
    Reg::spec_from_bits((w >> 7) & 0x1f)
}

/// The `rs1` field, bits 19:15, as a register name.
pub open spec fn rs1_of(w: u32) -> Reg {
    Reg::spec_from_bits((w >> 15) & 0x1f)
}

/// The `rs2` field, bits 24:20, as a register name.
pub open spec fn rs2_of(w: u32) -> Reg {
    Reg::spec_from_bits((w >> 20) & 0x1f)
}

/// The `funct3` field, bits 14:12.
pub open spec fn funct3_of(w: u32) -> u32 {
    (w >> 12) & 0x7
}

/// The `funct7` field, bits 31:25.
pub open spec fn funct7_of(w: u32) -> u32 {
    (w >> 25) & 0x7f
}

/// The I-type immediate: bits 31:20 sign-extended.
pub open spec fn imm_i(w: u32) -> i32 {
    (w as i32) >> 20
}

/// The S-type immediate: bits 31:25 over bits 11:7, sign-extended.
pub open spec fn imm_s(w: u32) -> i32 {
    let imm115 = (w >> 25) & 0x7f;
    let imm40 = (w >> 7) & 0x1f;
    let imm = (imm115 << 5) | imm40;
    ((imm as i32) << 20) >> 20
}

/// The B-type immediate: bit 31, bit 7, bits 30:25, bits 11:8 over a
/// zero low bit, sign-extended from 13 bits.
pub open spec fn imm_b(w: u32) -> i32 {
    let imm12 = (w >> 31) & 0x1;
    let imm105 = (w >> 25) & 0x3f;
    let imm41 = (w >> 8) & 0xf;
    let imm11 = (w >> 7) & 0x1;
    let imm = (imm12 << 12) | (imm11 << 11) | (imm105 << 5) | (imm41 << 1);
    ((imm as i32) << 19) >> 19
}

/// The U-type immediate: bits 31:12 with twelve zero low bits.
pub open spec fn imm_u(w: u32) -> i32 {
    (w & 0xfffff000) as i32
}

/// The J-type immediate: bit 31, bits 19:12, bit 20, bits 30:21 over a
/// zero low bit, sign-extended from 21 bits.
pub open spec fn imm_j(w: u32) -> i32 {
    let imm20 = (w >> 31) & 0x1;
    let imm101 = (w >> 21) & 0x3ff;
    let imm11 = (w >> 20) & 0x1;
    let imm1912 = (w >> 12) & 0xff;
    let imm = (imm20 << 20) | (imm1912 << 12) | (imm11 << 11) | (imm101 << 1);
    ((imm as i32) << 11) >> 11
}

proof fn lemma_mask5_u32(x: u32)
    by (bit_vector)
    ensures
        x & 0x1f < 32,
{
}

proof fn lemma_mask3_u32(x: u32)
    by (bit_vector)
    ensures
        x & 0x7 < 8,
{
}

proof fn lemma_mask6_i32(x: i32)
    by (bit_vector)
    ensures
        0 <= x & 0x3f < 64,
{
}

proof fn lemma_mask5_i32(x: i32)
    by (bit_vector)
    ensures
        0 <= x & 0x1f < 32,
{
}

proof fn lemma_mask12_i32(x: i32)
    by (bit_vector)
    ensures
        0 <= x & 0xfff < 4096,
{
}

/// R-type fields: two sources, a destination, and two function codes.
struct RType {
    funct7: u32,
    funct3: u32,
    rd: Reg,
    rs1: Reg,
    rs2: Reg,
}

impl RType {
    fn from_word(value: u32) -> (r: RType)
        ensures
            r.funct7 == funct7_of(value),
            r.funct3 == funct3_of(value),
            r.rd == rd_of(value),
            r.rs1 == rs1_of(value),
            r.rs2 == rs2_of(value),
    {
        let funct7 = (value >> 25) & 0x7f;
        proof {
            lemma_mask5_u32(value >> 20);
            lemma_mask5_u32(value >> 15);
            lemma_mask5_u32(value >> 7);
        }
        let rs2 = Reg::from_bits((value >> 20) & 0x1f);
        let rs1 = Reg::from_bits((value >> 15) & 0x1f);
        let funct3 = (value >> 12) & 0x7;
        let rd = Reg::from_bits((value >> 7) & 0x1f);
        RType { funct7, funct3, rd, rs1, rs2 }
    }
}

/// I-type fields: one source, a destination, and a 12-bit immediate.
struct IType {
    imm: i32,
    funct3: u32,
    rd: Reg,
    rs1: Reg,
}

impl IType {
    fn from_word(value: u32) -> (r: IType)
        ensures
            r.imm == imm_i(value),
            r.funct3 == funct3_of(value),
            r.rd == rd_of(value),
            r.rs1 == rs1_of(value),
    {
        let imm = (value as i32) >> 20;
        proof {
            lemma_mask5_u32(value >> 15);
            lemma_mask5_u32(value >> 7);
        }
        let rs1 = Reg::from_bits((value >> 15) & 0x1f);
        let funct3 = (value >> 12) & 0x7;
        let rd = Reg::from_bits((value >> 7) & 0x1f);
        IType { imm, funct3, rd, rs1 }
    }
}

/// S-type fields: two sources and a split 12-bit immediate.
struct SType {
    imm: i32,
    funct3: u32,
    rs1: Reg,
    rs2: Reg,
}

impl SType {
    fn from_word(value: u32) -> (r: SType)
        ensures
            r.imm == imm_s(value),
            r.funct3 == funct3_of(value),
            r.rs1 == rs1_of(value),
            r.rs2 == rs2_of(value),
    {
        let imm115 = (value >> 25) & 0x7f;
        let imm40 = (value >> 7) & 0x1f;
        let imm = (imm115 << 5) | imm40;
        let imm = ((imm as i32) << 20) >> 20;
        let funct3 = (value >> 12) & 0x7;
        proof {
            lemma_mask5_u32(value >> 15);
            lemma_mask5_u32(value >> 20);
        }
        let rs1 = Reg::from_bits((value >> 15) & 0x1f);
        let rs2 = Reg::from_bits((value >> 20) & 0x1f);
        SType { imm, funct3, rs1, rs2 }
    }
}

/// B-type fields: two sources and a split 13-bit branch offset.
struct BType {
    imm: i32,
    funct3: u32,
    rs1: Reg,
    rs2: Reg,
}

impl BType {
    fn from_word(value: u32) -> (r: BType)
        ensures
            r.imm == imm_b(value),
            r.funct3 == funct3_of(value),
            r.rs1 == rs1_of(value),
            r.rs2 == rs2_of(value),
    {
        let imm12 = (value >> 31) & 0x1;
        let imm105 = (value >> 25) & 0x3f;
        let imm41 = (value >> 8) & 0xf;
        let imm11 = (value >> 7) & 0x1;
        let imm = (imm12 << 12) | (imm11 << 11) | (imm105 << 5) | (imm41 << 1);
        let imm = ((imm as i32) << 19) >> 19;
        let funct3 = (value >> 12) & 0x7;
        proof {
            lemma_mask5_u32(value >> 15);
            lemma_mask5_u32(value >> 20);
        }
        let rs1 = Reg::from_bits((value >> 15) & 0x1f);
        let rs2 = Reg::from_bits((value >> 20) & 0x1f);
        BType { imm, funct3, rs1, rs2 }
    }
}

/// U-type fields: a destination and a 20-bit upper immediate.
struct UType {
    imm: i32,
    rd: Reg,
}

impl UType {
    fn from_word(value: u32) -> (r: UType)
        ensures
            r.imm == imm_u(value),
            r.rd == rd_of(value),
    {
        let imm = (value & 0xfffff000) as i32;
        proof {
            lemma_mask5_u32(value >> 7);
        }
        let rd = Reg::from_bits((value >> 7) & 0x1f);
        UType { imm, rd }
    }
}

/// J-type fields: a destination and a split 21-bit jump offset.
struct JType {
    imm: i32,
    rd: Reg,
}

impl JType {
    fn from_word(value: u32) -> (r: JType)
        ensures
            r.imm == imm_j(value),
            r.rd == rd_of(value),
    {
        let imm20 = (value >> 31) & 0x1;
        let imm101 = (value >> 21) & 0x3ff;
        let imm11 = (value >> 20) & 0x1;
        let imm1912 = (value >> 12) & 0xff;
        let imm = (imm20 << 20) | (imm1912 << 12) | (imm11 << 11) | (imm101 << 1);
        let imm = ((imm as i32) << 11) >> 11;
        proof {
            lemma_mask5_u32(value >> 7);
        }
        let rd = Reg::from_bits((value >> 7) & 0x1f);
        JType { imm, rd }
    }
}

/// What `decode` returns on a BRANCH-opcode word.
pub open spec fn spec_decode_branch(w: u32) -> Result<Instruction, Error> {
    let rs1 = rs1_of(w);
    let rs2 = rs2_of(w);
    let imm = imm_b(w);
    if funct3_of(w) == 0b000 {
        Ok(Instruction::Beq { rs1, rs2, imm })
    } else if funct3_of(w) == 0b001 {
        Ok(Instruction::Bne { rs1, rs2, imm })
    } else if funct3_of(w) == 0b100 {
        Ok(Instruction::Blt { rs1, rs2, imm })
    } else if funct3_of(w) == 0b101 {
        Ok(Instruction::Bge { rs1, rs2, imm })
    } else if funct3_of(w) == 0b110 {
        Ok(Instruction::Bltu { rs1, rs2, imm })
    } else if funct3_of(w) == 0b111 {
        Ok(Instruction::Bgeu { rs1, rs2, imm })
    } else {
        Err(Error::UnknownInstruction(Opcode::Branch, w))
    }
}

/// What `decode` returns on a LOAD-opcode word.
pub open spec fn spec_decode_load(w: u32) -> Result<Instruction, Error> {
    let rd = rd_of(w);
    let rs1 = rs1_of(w);
    let imm = imm_i(w);
    if funct3_of(w) == 0b000 {
        Ok(Instruction::Lb { rd, rs1, imm })
    } else if funct3_of(w) == 0b001 {
        Ok(Instruction::Lh { rd, rs1, imm })
    } else if funct3_of(w) == 0b010 {
        Ok(Instruction::Lw { rd, rs1, imm })
    } else if funct3_of(w) == 0b100 {
        Ok(Instruction::Lbu { rd, rs1, imm })
    } else if funct3_of(w) == 0b101 {
        Ok(Instruction::Lhu { rd, rs1, imm })
    } else if funct3_of(w) == 0b110 {
        Ok(Instruction::Lwu { rd, rs1, imm })
    } else if funct3_of(w) == 0b011 {
        Ok(Instruction::Ld { rd, rs1, imm })
    } else {
        Err(Error::UnknownInstruction(Opcode::Load, w))
    }
}

/// What `decode` returns on a STORE-opcode word.
pub open spec fn spec_decode_store(w: u32) -> Result<Instruction, Error> {
    let rs1 = rs1_of(w);
    let rs2 = rs2_of(w);
    let imm = imm_s(w);
    if funct3_of(w) == 0b000 {
        Ok(Instruction::Sb { rs1, rs2, imm })
    } else if funct3_of(w) == 0b001 {
        Ok(Instruction::Sh { rs1, rs2, imm })
    } else if funct3_of(w) == 0b010 {
        Ok(Instruction::Sw { rs1, rs2, imm })
    } else if funct3_of(w) == 0b011 {
        Ok(Instruction::Sd { rs1, rs2, imm })
    } else {
        Err(Error::UnknownInstruction(Opcode::Store, w))
    }
}

/// What `decode` returns on an OP-IMM-opcode word. The 64-bit shift
/// forms carry a 6-bit shift amount; their mode field selects between
/// logical and arithmetic right shifts.
pub open spec fn spec_decode_op_imm(w: u32) -> Result<Instruction, Error> {
    let rd = rd_of(w);
    let rs1 = rs1_of(w);
    let imm = imm_i(w);
    let shamt = imm & 0x3f;
    let mode = (imm >> 6) & 0x3f;
    if funct3_of(w) == 0b000 {
        Ok(Instruction::Addi { rd, rs1, imm })
    } else if funct3_of(w) == 0b010 {
        Ok(Instruction::Slti { rd, rs1, imm })
    } else if funct3_of(w) == 0b011 {
        Ok(Instruction::Sltiu { rd, rs1, imm })
    } else if funct3_of(w) == 0b100 {
        Ok(Instruction::Xori { rd, rs1, imm })
    } else if funct3_of(w) == 0b110 {
        Ok(Instruction::Ori { rd, rs1, imm })
    } else if funct3_of(w) == 0b111 {
        Ok(Instruction::Andi { rd, rs1, imm })
    } else if funct3_of(w) == 0b001 {
        Ok(Instruction::Slli { rd, rs1, shamt })
    } else if funct3_of(w) == 0b101 {
        if mode == 0b000000 {
            Ok(Instruction::Srli { rd, rs1, shamt })
        } else if mode == 0b010000 {
            Ok(Instruction::Srai { rd, rs1, shamt })
        } else {
            Err(Error::UnknownInstruction(Opcode::OpImm, w))
        }
    } else {
        Err(Error::UnknownInstruction(Opcode::OpImm, w))
    }
}

/// What `decode` returns on an OP-IMM-32-opcode word. The W-form shifts
/// carry a 5-bit shift amount; `funct7` selects between logical and
/// arithmetic right shifts.
pub open spec fn spec_decode_op_imm_32(w: u32) -> Result<Instruction, Error> {
    let rd = rd_of(w);
    let rs1 = rs1_of(w);
    let imm = imm_i(w);
    let shamt = imm & 0x1f;
    if funct3_of(w) == 0b000 {
        Ok(Instruction::Addiw { rd, rs1, imm })
    } else if funct3_of(w) == 0b001 {
        Ok(Instruction::Slliw { rd, rs1, shamt })
    } else if funct3_of(w) == 0b101 {
        if funct7_of(w) == 0b0000000 {
            Ok(Instruction::Srliw { rd, rs1, shamt })
        } else if funct7_of(w) == 0b0100000 {
            Ok(Instruction::Sraiw { rd, rs1, shamt })
        } else {
            Err(Error::UnknownInstruction(Opcode::OpImm32, w))
        }
    } else {
        Err(Error::UnknownInstruction(Opcode::OpImm32, w))
    }
}

/// What `decode` returns on an OP-opcode word: each (funct3, funct7)
/// pair maps to exactly one register-register operation.
pub open spec fn spec_decode_op(w: u32) -> Result<Instruction, Error> {
    let rd = rd_of(w);
    let rs1 = rs1_of(w);
    let rs2 = rs2_of(w);
    let f3 = funct3_of(w);
    let f7 = funct7_of(w);
    if f3 == 0b000 && f7 == 0b0000000 {
        Ok(Instruction::Add { rd, rs1, rs2 })
    } else if f3 == 0b000 && f7 == 0b0100000 {
        Ok(Instruction::Sub { rd, rs1, rs2 })
    } else if f3 == 0b001 && f7 == 0b0000000 {
        Ok(Instruction::Sll { rd, rs1, rs2 })
    } else if f3 == 0b010 && f7 == 0b0000000 {
        Ok(Instruction::Slt { rd, rs1, rs2 })
    } else if f3 == 0b011 && f7 == 0b0000000 {
        Ok(Instruction::Sltu { rd, rs1, rs2 })
    } else if f3 == 0b100 && f7 == 0b0000000 {
        Ok(Instruction::Xor { rd, rs1, rs2 })
    } else if f3 == 0b101 && f7 == 0b0000000 {
        Ok(Instruction::Srl { rd, rs1, rs2 })
    } else if f3 == 0b101 && f7 == 0b0100000 {
        Ok(Instruction::Sra { rd, rs1, rs2 })
    } else if f3 == 0b110 && f7 == 0b0000000 {
        Ok(Instruction::Or { rd, rs1, rs2 })
    } else if f3 == 0b111 && f7 == 0b0000000 {
        Ok(Instruction::And { rd, rs1, rs2 })
    } else {
        Err(Error::UnknownInstruction(Opcode::Op, w))
    }
}

/// What `decode` returns on an OP-32-opcode word.
pub open spec fn spec_decode_op_32(w: u32) -> Result<Instruction, Error> {
    let rd = rd_of(w);
    let rs1 = rs1_of(w);
    let rs2 = rs2_of(w);
    let f3 = funct3_of(w);
    let f7 = funct7_of(w);
    if f3 == 0b000 && f7 == 0b0000000 {
        Ok(Instruction::Addw { rd, rs1, rs2 })
    } else if f3 == 0b000 && f7 == 0b0100000 {
        Ok(Instruction::Subw { rd, rs1, rs2 })
    } else if f3 == 0b001 && f7 == 0b0000000 {
        Ok(Instruction::Sllw { rd, rs1, rs2 })
    } else if f3 == 0b101 && f7 == 0b0000000 {
        Ok(Instruction::Srlw { rd, rs1, rs2 })
    } else if f3 == 0b101 && f7 == 0b0100000 {
        Ok(Instruction::Sraw { rd, rs1, rs2 })
    } else {
        Err(Error::UnknownInstruction(Opcode::Op32, w))
    }
}

/// What `decode` returns on a MISC-MEM-opcode word: FENCE is kept as a
/// no-op tag; its fields are ignored.
pub open spec fn spec_decode_misc_mem(w: u32) -> Result<Instruction, Error> {
    if funct3_of(w) == 0b000 {
        Ok(Instruction::Fence {})
    } else {
        Err(Error::UnknownInstruction(Opcode::MiscMem, w))
    }
}

/// What `decode` returns on a SYSTEM-opcode word: the privileged forms
/// dispatch on the rs2 field and `funct7`; the CSR forms carry the CSR
/// number from bits 31:20 and, for the immediate forms, a 5-bit
/// zero-extended operand from bits 19:15.
pub open spec fn spec_decode_system(w: u32) -> Result<Instruction, Error> {
    let rd = rd_of(w);
    let rs1 = rs1_of(w);
    let uimm = (w >> 15) & 0x1f;
    let csr = (imm_i(w) & 0xfff) as u16;
    let f3 = funct3_of(w);
    if f3 == 0b000 {
        let funct5 = (w >> 20) & 0x1f;
        let f7 = funct7_of(w);
        if funct5 == 0b00000 && f7 == 0b0000000 {
            Ok(Instruction::Ecall)
        } else if funct5 == 0b00001 && f7 == 0b0000000 {
            Ok(Instruction::Ebreak)
        } else if funct5 == 0b00010 && f7 == 0b0001000 {
            Ok(Instruction::Sret)
        } else if funct5 == 0b00010 && f7 == 0b0011000 {
            Ok(Instruction::Mret)
        } else {
            Err(Error::UnknownInstruction(Opcode::System, w))
        }
    } else if f3 == 0b001 {
        Ok(Instruction::Csrrw { rd, rs1, csr })
    } else if f3 == 0b010 {
        Ok(Instruction::Csrrs { rd, rs1, csr })
    } else if f3 == 0b011 {
        Ok(Instruction::Csrrc { rd, rs1, csr })
    } else if f3 == 0b101 {
        Ok(Instruction::Csrrwi { rd, uimm, csr })
    } else if f3 == 0b110 {
        Ok(Instruction::Csrrsi { rd, uimm, csr })
    } else if f3 == 0b111 {
        Ok(Instruction::Csrrci { rd, uimm, csr })
    } else {
        Err(Error::UnknownInstruction(Opcode::System, w))
    }
}

/// What `decode` returns on any 32-bit word: the decoder as a total
/// mathematical function.
pub open spec fn spec_decode(w: u32) -> Result<Instruction, Error> {
    match Opcode::spec_from_bits(w & 0x7f) {
        Err(e) => Err(e),
        Ok(op) => match op {
            Opcode::Lui => Ok(Instruction::Lui { rd: rd_of(w), imm: imm_u(w) }),
            Opcode::Auipc => Ok(Instruction::Auipc { rd: rd_of(w), imm: imm_u(w) }),
            Opcode::Jal => Ok(Instruction::Jal { rd: rd_of(w), imm: imm_j(w) }),
            Opcode::Jalr => Ok(
                Instruction::Jalr { rd: rd_of(w), rs1: rs1_of(w), imm: imm_i(w) },
            ),
            Opcode::Branch => spec_decode_branch(w),
            Opcode::Load => spec_decode_load(w),
            Opcode::Store => spec_decode_store(w),
            Opcode::OpImm => spec_decode_op_imm(w),
            Opcode::OpImm32 => spec_decode_op_imm_32(w),
            Opcode::Op => spec_decode_op(w),
            Opcode::Op32 => spec_decode_op_32(w),
            Opcode::MiscMem => spec_decode_misc_mem(w),
            Opcode::System => spec_decode_system(w),
        },
    }
}

impl Instruction {
    /// The shape every decoded instruction has: register fields name
    /// general registers (never the program counter), shift amounts
    /// fit their operand width, CSR numbers fit 12 bits, and CSR
    /// immediates fit 5 bits.
    pub open spec fn wf(self) -> bool {
        match self {
            Instruction::Lui { rd, .. } => !(rd is Pc),
            Instruction::Auipc { rd, .. } => !(rd is Pc),
            Instruction::Jal { rd, .. } => !(rd is Pc),
            Instruction::Jalr { rd, rs1, .. } => !(rd is Pc) && !(rs1 is Pc),
            Instruction::Beq { rs1, rs2, .. } => !(rs1 is Pc) && !(rs2 is Pc),
            Instruction::Bne { rs1, rs2, .. } => !(rs1 is Pc) && !(rs2 is Pc),
            Instruction::Blt { rs1, rs2, .. } => !(rs1 is Pc) && !(rs2 is Pc),
            Instruction::Bge { rs1, rs2, .. } => !(rs1 is Pc) && !(rs2 is Pc),
            Instruction::Bltu { rs1, rs2, .. } => !(rs1 is Pc) && !(rs2 is Pc),
            Instruction::Bgeu { rs1, rs2, .. } => !(rs1 is Pc) && !(rs2 is Pc),
            Instruction::Lb { rd, rs1, .. } => !(rd is Pc) && !(rs1 is Pc),
            Instruction::Lh { rd, rs1, .. } => !(rd is Pc) && !(rs1 is Pc),
            Instruction::Lw { rd, rs1, .. } => !(rd is Pc) && !(rs1 is Pc),
            Instruction::Lbu { rd, rs1, .. } => !(rd is Pc) && !(rs1 is Pc),
            Instruction::Lhu { rd, rs1, .. } => !(rd is Pc) && !(rs1 is Pc),
            Instruction::Lwu { rd, rs1, .. } => !(rd is Pc) && !(rs1 is Pc),
            Instruction::Ld { rd, rs1, .. } => !(rd is Pc) && !(rs1 is Pc),
            Instruction::Sb { rs1, rs2, .. } => !(rs1 is Pc) && !(rs2 is Pc),
            Instruction::Sh { rs1, rs2, .. } => !(rs1 is Pc) && !(rs2 is Pc),
            Instruction::Sw { rs1, rs2, .. } => !(rs1 is Pc) && !(rs2 is Pc),
            Instruction::Sd { rs1, rs2, .. } => !(rs1 is Pc) && !(rs2 is Pc),
            Instruction::Addi { rd, rs1, .. } => !(rd is Pc) && !(rs1 is Pc),
            Instruction::Slti { rd, rs1, .. } => !(rd is Pc) && !(rs1 is Pc),
            Instruction::Sltiu { rd, rs1, .. } => !(rd is Pc) && !(rs1 is Pc),
            Instruction::Xori { rd, rs1, .. } => !(rd is Pc) && !(rs1 is Pc),
            Instruction::Ori { rd, rs1, .. } => !(rd is Pc) && !(rs1 is Pc),
            Instruction::Andi { rd, rs1, .. } => !(rd is Pc) && !(rs1 is Pc),
            Instruction::Slli { rd, rs1, shamt } => !(rd is Pc) && !(rs1 is Pc) && 0 <= shamt
                < 64,
            Instruction::Srli { rd, rs1, shamt } => !(rd is Pc) && !(rs1 is Pc) && 0 <= shamt
                < 64,
            Instruction::Srai { rd, rs1, shamt } => !(rd is Pc) && !(rs1 is Pc) && 0 <= shamt
                < 64,
            Instruction::Addiw { rd, rs1, .. } => !(rd is Pc) && !(rs1 is Pc),
            Instruction::Slliw { rd, rs1, shamt } => !(rd is Pc) && !(rs1 is Pc) && 0 <= shamt
                < 32,
            Instruction::Srliw { rd, rs1, shamt } => !(rd is Pc) && !(rs1 is Pc) && 0 <= shamt
                < 32,
            Instruction::Sraiw { rd, rs1, shamt } => !(rd is Pc) && !(rs1 is Pc) && 0 <= shamt
                < 32,
            Instruction::Add { rd, rs1, rs2 } => !(rd is Pc) && !(rs1 is Pc) && !(rs2 is Pc),
            Instruction::Sub { rd, rs1, rs2 } => !(rd is Pc) && !(rs1 is Pc) && !(rs2 is Pc),
            Instruction::Sll { rd, rs1, rs2 } => !(rd is Pc) && !(rs1 is Pc) && !(rs2 is Pc),
            Instruction::Slt { rd, rs1, rs2 } => !(rd is Pc) && !(rs1 is Pc) && !(rs2 is Pc),
            Instruction::Sltu { rd, rs1, rs2 } => !(rd is Pc) && !(rs1 is Pc) && !(rs2 is Pc),
            Instruction::Xor { rd, rs1, rs2 } => !(rd is Pc) && !(rs1 is Pc) && !(rs2 is Pc),
            Instruction::Srl { rd, rs1, rs2 } => !(rd is Pc) && !(rs1 is Pc) && !(rs2 is Pc),
            Instruction::Sra { rd, rs1, rs2 } => !(rd is Pc) && !(rs1 is Pc) && !(rs2 is Pc),
            Instruction::Or { rd, rs1, rs2 } => !(rd is Pc) && !(rs1 is Pc) && !(rs2 is Pc),
            Instruction::And { rd, rs1, rs2 } => !(rd is Pc) && !(rs1 is Pc) && !(rs2 is Pc),
            Instruction::Addw { rd, rs1, rs2 } => !(rd is Pc) && !(rs1 is Pc) && !(rs2 is Pc),
            Instruction::Subw { rd, rs1, rs2 } => !(rd is Pc) && !(rs1 is Pc) && !(rs2 is Pc),
            Instruction::Sllw { rd, rs1, rs2 } => !(rd is Pc) && !(rs1 is Pc) && !(rs2 is Pc),
            Instruction::Srlw { rd, rs1, rs2 } => !(rd is Pc) && !(rs1 is Pc) && !(rs2 is Pc),
            Instruction::Sraw { rd, rs1, rs2 } => !(rd is Pc) && !(rs1 is Pc) && !(rs2 is Pc),
            Instruction::Fence {  } => true,
            Instruction::Ecall => true,
            Instruction::Ebreak => true,
            Instruction::Sret => true,
            Instruction::Mret => true,
            Instruction::Csrrw { rd, rs1, csr } => !(rd is Pc) && !(rs1 is Pc) && csr < 4096,
            Instruction::Csrrs { rd, rs1, csr } => !(rd is Pc) && !(rs1 is Pc) && csr < 4096,
            Instruction::Csrrc { rd, rs1, csr } => !(rd is Pc) && !(rs1 is Pc) && csr < 4096,
            Instruction::Csrrwi { rd, uimm, csr } => !(rd is Pc) && uimm < 32 && csr < 4096,
            Instruction::Csrrsi { rd, uimm, csr } => !(rd is Pc) && uimm < 32 && csr < 4096,
            Instruction::Csrrci { rd, uimm, csr } => !(rd is Pc) && uimm < 32 && csr < 4096,
        }
    }
}


/// The I-type immediate as the ISA writes it: bits 31:20, read as a
/// 12-bit two's-complement integer.
pub open spec fn imm_i_formula(w: u32) -> int {
    let f = (w >> 20) & 0xfff;
    if f >= 0x800 {
        f - 0x1000
    } else {
        f as int
    }
}

/// The S-type immediate as the ISA writes it: bits 31:25 over bits
/// 11:7, read as a 12-bit two's-complement integer.
pub open spec fn imm_s_formula(w: u32) -> int {
    let f = (((w >> 25) & 0x7f) << 5) | ((w >> 7) & 0x1f);
    if f >= 0x800 {
        f - 0x1000
    } else {
        f as int
    }
}

/// The B-type immediate as the ISA writes it: bit 31, bit 7, bits
/// 30:25 and bits 11:8 over a zero low bit, read as a 13-bit
/// two's-complement integer.
pub open spec fn imm_b_formula(w: u32) -> int {
    let f = (((w >> 31) & 0x1) << 12) | (((w >> 7) & 0x1) << 11) | (((w >> 25) & 0x3f) << 5) | (
    ((w >> 8) & 0xf) << 1);
    if f >= 0x1000 {
        f - 0x2000
    } else {
        f as int
    }
}

/// The U-type immediate as the ISA writes it: bits 31:12 over twelve
/// zero bits, read as a 32-bit two's-complement integer.
pub open spec fn imm_u_formula(w: u32) -> int {
    let f = w & 0xfffff000;
    if f >= 0x8000_0000 {
        f - 0x1_0000_0000
    } else {
        f as int
    }
}

/// The J-type immediate as the ISA writes it: bit 31, bits 19:12, bit
/// 20 and bits 30:21 over a zero low bit, read as a 21-bit
/// two's-complement integer.
pub open spec fn imm_j_formula(w: u32) -> int {
    let f = (((w >> 31) & 0x1) << 20) | (((w >> 12) & 0xff) << 12) | (((w >> 20) & 0x1) << 11) | (
    ((w >> 21) & 0x3ff) << 1);
    if f >= 0x100000 {
        f - 0x200000
    } else {
        f as int
    }
}

/// The extracted I-type immediate carries the value of the ISA's
/// sign-extension formula.
pub proof fn lemma_imm_i_formula(w: u32)
    by (bit_vector)
    ensures
        imm_i(w) == imm_i_formula(w),
{
}

/// The extracted S-type immediate carries the value of the ISA's
/// sign-extension formula.
pub proof fn lemma_imm_s_formula(w: u32)
    by (bit_vector)
    ensures
        imm_s(w) == imm_s_formula(w),
{
}

/// The extracted B-type immediate carries the value of the ISA's
/// sign-extension formula.
pub proof fn lemma_imm_b_formula(w: u32)
    by (bit_vector)
    ensures
        imm_b(w) == imm_b_formula(w),
{
}

/// The extracted U-type immediate carries the value of the ISA's
/// formula.
pub proof fn lemma_imm_u_formula(w: u32)
    by (bit_vector)
    ensures
        imm_u(w) == imm_u_formula(w),
{
}

/// The extracted J-type immediate carries the value of the ISA's
/// sign-extension formula.
pub proof fn lemma_imm_j_formula(w: u32)
    by (bit_vector)
    ensures
        imm_j(w) == imm_j_formula(w),
{
}

/// The immediate a decoded instruction carries, where its format has
/// one.
pub open spec fn decoded_imm(inst: Instruction) -> Option<i32> {
    match inst {
        Instruction::Lui { imm, .. } => Some(imm),
        Instruction::Auipc { imm, .. } => Some(imm),
        Instruction::Jal { imm, .. } => Some(imm),
        Instruction::Jalr { imm, .. } => Some(imm),
        Instruction::Beq { imm, .. } => Some(imm),
        Instruction::Bne { imm, .. } => Some(imm),
        Instruction::Blt { imm, .. } => Some(imm),
        Instruction::Bge { imm, .. } => Some(imm),
        Instruction::Bltu { imm, .. } => Some(imm),
        Instruction::Bgeu { imm, .. } => Some(imm),
        Instruction::Lb { imm, .. } => Some(imm),
        Instruction::Lh { imm, .. } => Some(imm),
        Instruction::Lw { imm, .. } => Some(imm),
        Instruction::Lbu { imm, .. } => Some(imm),
        Instruction::Lhu { imm, .. } => Some(imm),
        Instruction::Lwu { imm, .. } => Some(imm),
        Instruction::Ld { imm, .. } => Some(imm),
        Instruction::Sb { imm, .. } => Some(imm),
        Instruction::Sh { imm, .. } => Some(imm),
        Instruction::Sw { imm, .. } => Some(imm),
        Instruction::Sd { imm, .. } => Some(imm),
        Instruction::Addi { imm, .. } => Some(imm),
        Instruction::Slti { imm, .. } => Some(imm),
        Instruction::Sltiu { imm, .. } => Some(imm),
        Instruction::Xori { imm, .. } => Some(imm),
        Instruction::Ori { imm, .. } => Some(imm),
        Instruction::Andi { imm, .. } => Some(imm),
        Instruction::Addiw { imm, .. } => Some(imm),
        _ => None,
    }
}

/// The ISA's immediate formula for the format the word's opcode
/// selects, where that format has an immediate.
pub open spec fn expected_imm(w: u32) -> Option<int> {
    match Opcode::spec_from_bits(w & 0x7f) {
        Err(_) => None,
        Ok(op) => match op {
            Opcode::Lui => Some(imm_u_formula(w)),
            Opcode::Auipc => Some(imm_u_formula(w)),
            Opcode::Jal => Some(imm_j_formula(w)),
            Opcode::Jalr => Some(imm_i_formula(w)),
            Opcode::Branch => Some(imm_b_formula(w)),
            Opcode::Load => Some(imm_i_formula(w)),
            Opcode::Store => Some(imm_s_formula(w)),
            Opcode::OpImm => Some(imm_i_formula(w)),
            Opcode::OpImm32 => Some(imm_i_formula(w)),
            _ => None,
        },
    }
}

/// Law: on every word the decoder accepts, the immediate carried by
/// the decoded instruction is exactly the ISA's sign-extension
/// formula for that word's encoding format.
#[verifier::rlimit(50)]
#[verifier::spinoff_prover]
pub proof fn lemma_decode_immediate(w: u32)
    ensures
        spec_decode(w) matches Ok(inst) ==> (decoded_imm(inst) matches Some(imm) ==> Some(
            imm as int,
        ) == expected_imm(w)),
{
    lemma_imm_i_formula(w);
    lemma_imm_s_formula(w);
    lemma_imm_b_formula(w);
    lemma_imm_u_formula(w);
    lemma_imm_j_formula(w);
}

/// A word whose sub-fields match an RV64I encoding this core
/// implements: the conditions under which the decoder succeeds.
pub open spec fn recognized_encoding(w: u32) -> bool {
    let op = w & 0x7f;
    let f3 = funct3_of(w);
    let f7 = funct7_of(w);
    ||| op == 0b0110111
    ||| op == 0b0010111
    ||| op == 0b1101111
    ||| op == 0b1100111
    ||| (op == 0b1100011 && f3 != 0b010 && f3 != 0b011)
    ||| (op == 0b0000011 && f3 != 0b111)
    ||| (op == 0b0100011 && f3 <= 0b011)
    ||| (op == 0b0010011 && (f3 != 0b101 || ((imm_i(w) >> 6) & 0x3f) == 0b000000 || ((imm_i(w)
        >> 6) & 0x3f) == 0b010000))
    ||| (op == 0b0011011 && (f3 == 0b000 || f3 == 0b001 || (f3 == 0b101 && (f7 == 0b0000000
        || f7 == 0b0100000))))
    ||| (op == 0b0110011 && ((f7 == 0b0000000 && f3 <= 0b111) || (f7 == 0b0100000 && (f3
        == 0b000 || f3 == 0b101))))
    ||| (op == 0b0111011 && ((f7 == 0b0000000 && (f3 == 0b000 || f3 == 0b001 || f3 == 0b101))
        || (f7 == 0b0100000 && (f3 == 0b000 || f3 == 0b101))))
    ||| (op == 0b0001111 && f3 == 0b000)
    ||| (op == 0b1110011 && (f3 == 0b001 || f3 == 0b010 || f3 == 0b011 || f3 == 0b101 || f3
        == 0b110 || f3 == 0b111 || (f3 == 0b000 && (((w >> 20) & 0x1f) == 0b00000 && f7
        == 0b0000000 || ((w >> 20) & 0x1f) == 0b00001 && f7 == 0b0000000 || ((w >> 20) & 0x1f)
        == 0b00010 && (f7 == 0b0001000 || f7 == 0b0011000)))))
}

/// Law: the decoder succeeds on exactly the words whose low 7 bits
/// name an implemented opcode and whose sub-fields match an RV64I
/// encoding this core implements.
#[verifier::rlimit(80)]
#[verifier::spinoff_prover]
pub proof fn lemma_decode_succeeds(w: u32)
    ensures
        spec_decode(w) is Ok <==> recognized_encoding(w),
{
    lemma_mask3_u32(w >> 12);
}


/// The I-type immediate placed back into its word positions, bits
/// 31:20.
pub open spec fn encode_imm_i(imm: i32) -> u32 {
    ((imm as u32) & 0xfff) << 20
}

/// The S-type immediate placed back into its word positions, bits
/// 31:25 and 11:7.
pub open spec fn encode_imm_s(imm: i32) -> u32 {
    ((((imm as u32) >> 5) & 0x7f) << 25) | (((imm as u32) & 0x1f) << 7)
}

/// The B-type immediate placed back into its word positions: bit 31,
/// bits 30:25, bits 11:8 and bit 7.
pub open spec fn encode_imm_b(imm: i32) -> u32 {
    ((((imm as u32) >> 12) & 0x1) << 31) | ((((imm as u32) >> 5) & 0x3f) << 25) | ((((imm
        as u32) >> 1) & 0xf) << 8) | ((((imm as u32) >> 11) & 0x1) << 7)
}

/// The U-type immediate placed back into its word positions, bits
/// 31:12.
pub open spec fn encode_imm_u(imm: i32) -> u32 {
    (imm as u32) & 0xfffff000
}

/// The J-type immediate placed back into its word positions: bit 31,
/// bits 30:21, bit 20 and bits 19:12.
pub open spec fn encode_imm_j(imm: i32) -> u32 {
    ((((imm as u32) >> 20) & 0x1) << 31) | ((((imm as u32) >> 1) & 0x3ff) << 21) | ((((imm
        as u32) >> 11) & 0x1) << 20) | ((((imm as u32) >> 12) & 0xff) << 12)
}

/// Law: re-encoding the extracted I-type immediate reproduces the
/// word's immediate bits.
pub proof fn lemma_imm_i_round_trip(w: u32)
    by (bit_vector)
    ensures
        encode_imm_i(imm_i(w)) == w & 0xfff00000,
{
}

/// Law: re-encoding the extracted S-type immediate reproduces the
/// word's immediate bits.
pub proof fn lemma_imm_s_round_trip(w: u32)
    by (bit_vector)
    ensures
        encode_imm_s(imm_s(w)) == w & 0xfe000f80,
{
}

/// Law: re-encoding the extracted B-type immediate reproduces the
/// word's immediate bits.
pub proof fn lemma_imm_b_round_trip(w: u32)
    by (bit_vector)
    ensures
        encode_imm_b(imm_b(w)) == w & 0xfe000f80,
{
}

/// Law: re-encoding the extracted U-type immediate reproduces the
/// word's immediate bits.
pub proof fn lemma_imm_u_round_trip(w: u32)
    by (bit_vector)
    ensures
        encode_imm_u(imm_u(w)) == w & 0xfffff000,
{
}

/// Law: re-encoding the extracted J-type immediate reproduces the
/// word's immediate bits.
pub proof fn lemma_imm_j_round_trip(w: u32)
    by (bit_vector)
    ensures
        encode_imm_j(imm_j(w)) == w & 0xfffff000,
{
}

/// Everything the decoder hands out is well-formed: register fields
/// name general registers, shift amounts fit their width, CSR numbers
/// fit 12 bits, and CSR immediates fit 5 bits.
proof fn lemma_regs_general(w: u32)
    ensures
        !(rd_of(w) is Pc),
        !(rs1_of(w) is Pc),
        !(rs2_of(w) is Pc),
{
    lemma_mask5_u32(w >> 7);
    lemma_mask5_u32(w >> 15);
    lemma_mask5_u32(w >> 20);
}

proof fn lemma_decode_branch_wf(w: u32)
    ensures
        spec_decode_branch(w) matches Ok(i) ==> i.wf(),
{
    lemma_regs_general(w);
}

proof fn lemma_decode_load_wf(w: u32)
    ensures
        spec_decode_load(w) matches Ok(i) ==> i.wf(),
{
    lemma_regs_general(w);
}

proof fn lemma_decode_store_wf(w: u32)
    ensures
        spec_decode_store(w) matches Ok(i) ==> i.wf(),
{
    lemma_regs_general(w);
}

proof fn lemma_decode_op_imm_wf(w: u32)
    ensures
        spec_decode_op_imm(w) matches Ok(i) ==> i.wf(),
{
    lemma_regs_general(w);
    lemma_mask6_i32(imm_i(w));
}

proof fn lemma_decode_op_imm_32_wf(w: u32)
    ensures
        spec_decode_op_imm_32(w) matches Ok(i) ==> i.wf(),
{
    lemma_regs_general(w);
    lemma_mask5_i32(imm_i(w));
}

proof fn lemma_decode_op_wf(w: u32)
    ensures
        spec_decode_op(w) matches Ok(i) ==> i.wf(),
{
    lemma_regs_general(w);
}

proof fn lemma_decode_op_32_wf(w: u32)
    ensures
        spec_decode_op_32(w) matches Ok(i) ==> i.wf(),
{
    lemma_regs_general(w);
}

proof fn lemma_decode_system_wf(w: u32)
    ensures
        spec_decode_system(w) matches Ok(i) ==> i.wf(),
{
    lemma_regs_general(w);
    lemma_mask5_u32(w >> 15);
    lemma_mask12_i32(imm_i(w));
}

/// Everything the decoder hands out is well-formed: register fields
/// name general registers, shift amounts fit their width, CSR numbers
/// fit 12 bits, and CSR immediates fit 5 bits.
pub proof fn lemma_decode_wf(w: u32)
    ensures
        spec_decode(w) matches Ok(i) ==> i.wf(),
{
    lemma_regs_general(w);
    lemma_decode_branch_wf(w);
    lemma_decode_load_wf(w);
    lemma_decode_store_wf(w);
    lemma_decode_op_imm_wf(w);
    lemma_decode_op_imm_32_wf(w);
    lemma_decode_op_wf(w);
    lemma_decode_op_32_wf(w);
    lemma_decode_system_wf(w);
}

impl Instruction {
    /// Decode one 32-bit instruction word. Total: every word yields
    /// either a decoded instruction or a decode error.
    pub fn decode(inst: u32) -> (r: Result<Instruction, Error>)
        ensures
            r == spec_decode(inst),
    {
        let opcode_bits = inst & 0x7f;
        let opcode = match Opcode::from_bits(opcode_bits) {
            Ok(op) => op,
            Err(e) => {
                return Err(e);
            },
        };
        match opcode {
            Opcode::Lui => {
                let data = UType::from_word(inst);
                Ok(Instruction::Lui { rd: data.rd, imm: data.imm })
            },
            Opcode::Auipc => {
                let data = UType::from_word(inst);
                Ok(Instruction::Auipc { rd: data.rd, imm: data.imm })
            },
            Opcode::Jal => {
                let data = JType::from_word(inst);
                Ok(Instruction::Jal { rd: data.rd, imm: data.imm })
            },
            Opcode::Jalr => {
                let data = IType::from_word(inst);
                Ok(Instruction::Jalr { rd: data.rd, rs1: data.rs1, imm: data.imm })
            },
            Opcode::Branch => Self::decode_branch(inst),
            Opcode::Load => Self::decode_load(inst),
            Opcode::Store => Self::decode_store(inst),
            Opcode::OpImm => Self::decode_op_imm(inst),
            Opcode::OpImm32 => Self::decode_op_imm_32(inst),
            Opcode::Op => Self::decode_op(inst),
            Opcode::Op32 => Self::decode_op_32(inst),
            Opcode::MiscMem => Self::decode_misc_mem(inst),
            Opcode::System => Self::decode_system(inst),
        }
    }

    /// Decode the conditional-branch forms.
    pub fn decode_branch(inst: u32) -> (r: Result<Instruction, Error>)
        ensures
            r == spec_decode_branch(inst),
    {
        let data = BType::from_word(inst);
        let rs1 = data.rs1;
        let rs2 = data.rs2;
        let imm = data.imm;
        match data.funct3 {
            0b000u32 => Ok(Instruction::Beq { rs1, rs2, imm }),
            0b001u32 => Ok(Instruction::Bne { rs1, rs2, imm }),
            0b100u32 => Ok(Instruction::Blt { rs1, rs2, imm }),
            0b101u32 => Ok(Instruction::Bge { rs1, rs2, imm }),
            0b110u32 => Ok(Instruction::Bltu { rs1, rs2, imm }),
            0b111u32 => Ok(Instruction::Bgeu { rs1, rs2, imm }),
            _ => Err(Error::UnknownInstruction(Opcode::Branch, inst)),
        }
    }

    /// Decode the load forms.
    pub fn decode_load(inst: u32) -> (r: Result<Instruction, Error>)
        ensures
            r == spec_decode_load(inst),
    {
        let data = IType::from_word(inst);
        let rd = data.rd;
        let rs1 = data.rs1;
        let imm = data.imm;
        match data.funct3 {
            0b000u32 => Ok(Instruction::Lb { rd, rs1, imm }),
            0b001u32 => Ok(Instruction::Lh { rd, rs1, imm }),
            0b010u32 => Ok(Instruction::Lw { rd, rs1, imm }),
            0b100u32 => Ok(Instruction::Lbu { rd, rs1, imm }),
            0b101u32 => Ok(Instruction::Lhu { rd, rs1, imm }),
            0b110u32 => Ok(Instruction::Lwu { rd, rs1, imm }),
            0b011u32 => Ok(Instruction::Ld { rd, rs1, imm }),
            _ => Err(Error::UnknownInstruction(Opcode::Load, inst)),
        }
    }

    /// Decode the store forms.
    pub fn decode_store(inst: u32) -> (r: Result<Instruction, Error>)
        ensures
            r == spec_decode_store(inst),
    {
        let data = SType::from_word(inst);
        let rs1 = data.rs1;
        let rs2 = data.rs2;
        let imm = data.imm;
        match data.funct3 {
            0b000u32 => Ok(Instruction::Sb { rs1, rs2, imm }),
            0b001u32 => Ok(Instruction::Sh { rs1, rs2, imm }),
            0b010u32 => Ok(Instruction::Sw { rs1, rs2, imm }),
            0b011u32 => Ok(Instruction::Sd { rs1, rs2, imm }),
            _ => Err(Error::UnknownInstruction(Opcode::Store, inst)),
        }
    }

    /// Decode the immediate ALU forms, including the 64-bit shifts.
    pub fn decode_op_imm(inst: u32) -> (r: Result<Instruction, Error>)
        ensures
            r == spec_decode_op_imm(inst),
    {
        let data = IType::from_word(inst);
        let rd = data.rd;
        let rs1 = data.rs1;
        let imm = data.imm;
        let shamt = imm & 0x3f;
        let mode = (imm >> 6) & 0x3f;
        match data.funct3 {
            0b000u32 => Ok(Instruction::Addi { rd, rs1, imm }),
            0b010u32 => Ok(Instruction::Slti { rd, rs1, imm }),
            0b011u32 => Ok(Instruction::Sltiu { rd, rs1, imm }),
            0b100u32 => Ok(Instruction::Xori { rd, rs1, imm }),
            0b110u32 => Ok(Instruction::Ori { rd, rs1, imm }),
            0b111u32 => Ok(Instruction::Andi { rd, rs1, imm }),
            0b001u32 => Ok(Instruction::Slli { rd, rs1, shamt }),
            0b101u32 => {
                match mode {
                    0b000000i32 => Ok(Instruction::Srli { rd, rs1, shamt }),
                    0b010000i32 => Ok(Instruction::Srai { rd, rs1, shamt }),
                    _ => Err(Error::UnknownInstruction(Opcode::OpImm, inst)),
                }
            },
            _ => Err(Error::UnknownInstruction(Opcode::OpImm, inst)),
        }
    }

    /// Decode the 32-bit immediate ALU forms, including the W-form
    /// shifts with their 5-bit shift amounts.
    pub fn decode_op_imm_32(inst: u32) -> (r: Result<Instruction, Error>)
        ensures
            r == spec_decode_op_imm_32(inst),
    {
        let data = IType::from_word(inst);
        let rd = data.rd;
        let rs1 = data.rs1;
        let imm = data.imm;
        let shamt = imm & 0x1f;
        let funct7 = (inst >> 25) & 0x7f;
        match data.funct3 {
            0b000u32 => Ok(Instruction::Addiw { rd, rs1, imm }),
            0b001u32 => Ok(Instruction::Slliw { rd, rs1, shamt }),
            0b101u32 => {
                match funct7 {
                    0b0000000u32 => Ok(Instruction::Srliw { rd, rs1, shamt }),
                    0b0100000u32 => Ok(Instruction::Sraiw { rd, rs1, shamt }),
                    _ => Err(Error::UnknownInstruction(Opcode::OpImm32, inst)),
                }
            },
            _ => Err(Error::UnknownInstruction(Opcode::OpImm32, inst)),
        }
    }

    /// Decode the register-register ALU forms.
    pub fn decode_op(inst: u32) -> (r: Result<Instruction, Error>)
        ensures
            r == spec_decode_op(inst),
    {
        let data = RType::from_word(inst);
        let rd = data.rd;
        let rs1 = data.rs1;
        let rs2 = data.rs2;
        match (data.funct3, data.funct7) {
            (0b000u32, 0b0000000u32) => Ok(Instruction::Add { rd, rs1, rs2 }),
            (0b000u32, 0b0100000u32) => Ok(Instruction::Sub { rd, rs1, rs2 }),
            (0b001u32, 0b0000000u32) => Ok(Instruction::Sll { rd, rs1, rs2 }),
            (0b010u32, 0b0000000u32) => Ok(Instruction::Slt { rd, rs1, rs2 }),
            (0b011u32, 0b0000000u32) => Ok(Instruction::Sltu { rd, rs1, rs2 }),
            (0b100u32, 0b0000000u32) => Ok(Instruction::Xor { rd, rs1, rs2 }),
            (0b101u32, 0b0000000u32) => Ok(Instruction::Srl { rd, rs1, rs2 }),
            (0b101u32, 0b0100000u32) => Ok(Instruction::Sra { rd, rs1, rs2 }),
            (0b110u32, 0b0000000u32) => Ok(Instruction::Or { rd, rs1, rs2 }),
            (0b111u32, 0b0000000u32) => Ok(Instruction::And { rd, rs1, rs2 }),
            _ => Err(Error::UnknownInstruction(Opcode::Op, inst)),
        }
    }

    /// Decode the 32-bit register-register ALU forms.
    pub fn decode_op_32(inst: u32) -> (r: Result<Instruction, Error>)
        ensures
            r == spec_decode_op_32(inst),
    {
        let data = RType::from_word(inst);
        let rd = data.rd;
        let rs1 = data.rs1;
        let rs2 = data.rs2;
        match (data.funct3, data.funct7) {
            (0b000u32, 0b0000000u32) => Ok(Instruction::Addw { rd, rs1, rs2 }),
            (0b000u32, 0b0100000u32) => Ok(Instruction::Subw { rd, rs1, rs2 }),
            (0b001u32, 0b0000000u32) => Ok(Instruction::Sllw { rd, rs1, rs2 }),
            (0b101u32, 0b0000000u32) => Ok(Instruction::Srlw { rd, rs1, rs2 }),
            (0b101u32, 0b0100000u32) => Ok(Instruction::Sraw { rd, rs1, rs2 }),
            _ => Err(Error::UnknownInstruction(Opcode::Op32, inst)),
        }
    }

    /// Decode the MISC-MEM forms.
    pub fn decode_misc_mem(inst: u32) -> (r: Result<Instruction, Error>)
        ensures
            r == spec_decode_misc_mem(inst),
    {
        let data = IType::from_word(inst);
        match data.funct3 {
            0b000u32 => Ok(Instruction::Fence {}),
            _ => Err(Error::UnknownInstruction(Opcode::MiscMem, inst)),
        }
    }

    /// Decode the SYSTEM forms.
    pub fn decode_system(inst: u32) -> (r: Result<Instruction, Error>)
        ensures
            r == spec_decode_system(inst),
    {
        let data = IType::from_word(inst);
        let rd = data.rd;
        let rs1 = data.rs1;
        let imm = data.imm;
        proof {
            lemma_mask5_u32(inst >> 15);
            lemma_mask12_i32(imm_i(inst));
        }
        let uimm = (inst >> 15) & 0x1f;
        let csr = (imm & 0xfff) as u16;
        match data.funct3 {
            0b000u32 => {
                let rdata = RType::from_word(inst);
                proof {
                    lemma_mask5_u32(inst >> 20);
                }
                let funct5 = (inst >> 20) & 0x1f;
                match (funct5, rdata.funct7) {
                    (0b00000u32, 0b0000000u32) => Ok(Instruction::Ecall),
                    (0b00001u32, 0b0000000u32) => Ok(Instruction::Ebreak),
                    (0b00010u32, 0b0001000u32) => Ok(Instruction::Sret),
                    (0b00010u32, 0b0011000u32) => Ok(Instruction::Mret),
                    _ => Err(Error::UnknownInstruction(Opcode::System, inst)),
                }
            },
            0b001u32 => Ok(Instruction::Csrrw { rd, rs1, csr }),
            0b010u32 => Ok(Instruction::Csrrs { rd, rs1, csr }),
            0b011u32 => Ok(Instruction::Csrrc { rd, rs1, csr }),
            0b101u32 => Ok(Instruction::Csrrwi { rd, uimm, csr }),
            0b110u32 => Ok(Instruction::Csrrsi { rd, uimm, csr }),
            0b111u32 => Ok(Instruction::Csrrci { rd, uimm, csr }),
            _ => Err(Error::UnknownInstruction(Opcode::System, inst)),
        }
    }
}

} // verus!
