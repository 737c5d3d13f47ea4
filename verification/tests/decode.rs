use rv64emu::cpu::Reg;
use rv64emu::instruction::{Error, Instruction, Opcode};

#[test]
fn decode_addi_negative_immediate() {
    // addi x5, x5, -1
    let inst = Instruction::decode(0xFFF28293).unwrap();
    assert_eq!(inst, Instruction::Addi { rd: Reg::X5, rs1: Reg::X5, imm: -1 });
}

#[test]
fn decode_lui() {
    // lui x5, 0x12345
    let inst = Instruction::decode(0x123452B7).unwrap();
    assert_eq!(inst, Instruction::Lui { rd: Reg::X5, imm: 0x12345000 });
}

#[test]
fn decode_auipc() {
    // auipc x3, 0x80000
    let inst = Instruction::decode(0x80000197).unwrap();
    assert_eq!(inst, Instruction::Auipc { rd: Reg::X3, imm: -2147483648 });
}

#[test]
fn decode_jal() {
    // jal x1, +8
    let inst = Instruction::decode(0x008000EF).unwrap();
    assert_eq!(inst, Instruction::Jal { rd: Reg::X1, imm: 8 });
}

#[test]
fn decode_jal_negative_offset() {
    // jal x0, -4
    let inst = Instruction::decode(0xFFDFF06F).unwrap();
    assert_eq!(inst, Instruction::Jal { rd: Reg::X0, imm: -4 });
}

#[test]
fn decode_jalr() {
    // jalr x1, 16(x2)
    let inst = Instruction::decode(0x010100E7).unwrap();
    assert_eq!(inst, Instruction::Jalr { rd: Reg::X1, rs1: Reg::X2, imm: 16 });
}

#[test]
fn decode_beq() {
    // beq x5, x6, +8
    let inst = Instruction::decode(0x00628463).unwrap();
    assert_eq!(inst, Instruction::Beq { rs1: Reg::X5, rs2: Reg::X6, imm: 8 });
}

#[test]
fn decode_bne_negative_offset() {
    // bne x10, x11, -16
    let inst = Instruction::decode(0xFEB518E3).unwrap();
    assert_eq!(inst, Instruction::Bne { rs1: Reg::X10, rs2: Reg::X11, imm: -16 });
}

#[test]
fn decode_loads() {
    // ld x6, 16(x5)
    let inst = Instruction::decode(0x0102B303).unwrap();
    assert_eq!(inst, Instruction::Ld { rd: Reg::X6, rs1: Reg::X5, imm: 16 });
    // lb x6, 0(x5)
    let inst = Instruction::decode(0x00028303).unwrap();
    assert_eq!(inst, Instruction::Lb { rd: Reg::X6, rs1: Reg::X5, imm: 0 });
    // lbu x6, 0(x5)
    let inst = Instruction::decode(0x0002C303).unwrap();
    assert_eq!(inst, Instruction::Lbu { rd: Reg::X6, rs1: Reg::X5, imm: 0 });
    // lwu x6, 0(x5)
    let inst = Instruction::decode(0x0002E303).unwrap();
    assert_eq!(inst, Instruction::Lwu { rd: Reg::X6, rs1: Reg::X5, imm: 0 });
}

#[test]
fn decode_stores() {
    // sd x6, 8(x5)
    let inst = Instruction::decode(0x0062B423).unwrap();
    assert_eq!(inst, Instruction::Sd { rs1: Reg::X5, rs2: Reg::X6, imm: 8 });
    // sb x6, -1(x5)
    let inst = Instruction::decode(0xFE628FA3).unwrap();
    assert_eq!(inst, Instruction::Sb { rs1: Reg::X5, rs2: Reg::X6, imm: -1 });
}

#[test]
fn decode_shifts() {
    // srai x5, x5, 4
    let inst = Instruction::decode(0x4042D293).unwrap();
    assert_eq!(inst, Instruction::Srai { rd: Reg::X5, rs1: Reg::X5, shamt: 4 });
    // slli x5, x5, 63
    let inst = Instruction::decode(0x03F29293).unwrap();
    assert_eq!(inst, Instruction::Slli { rd: Reg::X5, rs1: Reg::X5, shamt: 63 });
    // srli x5, x5, 1
    let inst = Instruction::decode(0x0012D293).unwrap();
    assert_eq!(inst, Instruction::Srli { rd: Reg::X5, rs1: Reg::X5, shamt: 1 });
    // srliw x5, x5, 1
    let inst = Instruction::decode(0x0012D29B).unwrap();
    assert_eq!(inst, Instruction::Srliw { rd: Reg::X5, rs1: Reg::X5, shamt: 1 });
    // sraiw x5, x5, 1
    let inst = Instruction::decode(0x4012D29B).unwrap();
    assert_eq!(inst, Instruction::Sraiw { rd: Reg::X5, rs1: Reg::X5, shamt: 1 });
}

#[test]
fn decode_register_ops() {
    // add x5, x6, x7
    let inst = Instruction::decode(0x007302B3).unwrap();
    assert_eq!(inst, Instruction::Add { rd: Reg::X5, rs1: Reg::X6, rs2: Reg::X7 });
    // sub x5, x6, x7
    let inst = Instruction::decode(0x407302B3).unwrap();
    assert_eq!(inst, Instruction::Sub { rd: Reg::X5, rs1: Reg::X6, rs2: Reg::X7 });
    // sraw x5, x6, x7
    let inst = Instruction::decode(0x407352BB).unwrap();
    assert_eq!(inst, Instruction::Sraw { rd: Reg::X5, rs1: Reg::X6, rs2: Reg::X7 });
}

#[test]
fn decode_system_forms() {
    assert_eq!(Instruction::decode(0x00000073).unwrap(), Instruction::Ecall);
    assert_eq!(Instruction::decode(0x00100073).unwrap(), Instruction::Ebreak);
    assert_eq!(Instruction::decode(0x10200073).unwrap(), Instruction::Sret);
    assert_eq!(Instruction::decode(0x30200073).unwrap(), Instruction::Mret);
    assert_eq!(Instruction::decode(0x0000000F).unwrap(), Instruction::Fence {});
    // csrrw x5, 0x305, x6
    let inst = Instruction::decode(0x305312F3).unwrap();
    assert_eq!(inst, Instruction::Csrrw { rd: Reg::X5, rs1: Reg::X6, csr: 0x305 });
    // csrrs x5, 0x341, x0
    let inst = Instruction::decode(0x341022F3).unwrap();
    assert_eq!(inst, Instruction::Csrrs { rd: Reg::X5, rs1: Reg::X0, csr: 0x341 });
    // csrrwi x5, 0x342, 7
    let inst = Instruction::decode(0x3423D2F3).unwrap();
    assert_eq!(inst, Instruction::Csrrwi { rd: Reg::X5, uimm: 7, csr: 0x342 });
}

#[test]
fn decode_unknown_opcode() {
    assert_eq!(Instruction::decode(0x00000000), Err(Error::UnknownOpcode(0)));
    assert_eq!(Instruction::decode(0xFFFFFFFF), Err(Error::UnknownOpcode(0x7F)));
}

#[test]
fn decode_unknown_instruction() {
    // BRANCH with funct3 = 010 names no branch
    match Instruction::decode(0x00002063) {
        Err(Error::UnknownInstruction(Opcode::Branch, w)) => assert_eq!(w, 0x00002063),
        other => panic!("expected a branch decode error, got {:?}", other),
    }
    // OP with funct7 = 0000001 is outside RV64I
    match Instruction::decode(0x02000033) {
        Err(Error::UnknownInstruction(Opcode::Op, w)) => assert_eq!(w, 0x02000033),
        other => panic!("expected an OP decode error, got {:?}", other),
    }
    // OP-IMM right-shift with a bad mode field
    match Instruction::decode(0x7002D293) {
        Err(Error::UnknownInstruction(Opcode::OpImm, _)) => {}
        other => panic!("expected an OP-IMM decode error, got {:?}", other),
    }
}

#[test]
fn decode_is_total() {
    // A spread of words across every opcode slot decodes to a definite
    // answer without panicking.
    let mut word: u32 = 0x9E3779B9;
    for _ in 0..10000 {
        let _ = Instruction::decode(word);
        word = word.wrapping_mul(1664525).wrapping_add(1013904223);
    }
}

fn place_i(imm: u32) -> u32 {
    (imm & 0xfff) << 20
}

fn place_s(imm: u32) -> u32 {
    (((imm >> 5) & 0x7f) << 25) | ((imm & 0x1f) << 7)
}

fn place_b(imm: u32) -> u32 {
    (((imm >> 12) & 0x1) << 31) | (((imm >> 5) & 0x3f) << 25) | (((imm >> 1) & 0xf) << 8)
        | (((imm >> 11) & 0x1) << 7)
}

fn place_j(imm: u32) -> u32 {
    (((imm >> 20) & 0x1) << 31) | (((imm >> 1) & 0x3ff) << 21) | (((imm >> 11) & 0x1) << 20)
        | (((imm >> 12) & 0xff) << 12)
}

#[test]
fn immediate_round_trip_per_format() {
    // For pseudo-random words of each format, re-encoding the decoded
    // immediate reproduces the word's immediate bits.
    let mut raw: u32 = 0x12345678;
    for _ in 0..1000 {
        raw = raw.wrapping_mul(1664525).wrapping_add(1013904223);

        // I-type: ADDI
        let w = (raw & !0x7fu32) | 0b0010011;
        let w = w & !(0x7u32 << 12);
        if let Ok(Instruction::Addi { imm, .. }) = Instruction::decode(w) {
            assert_eq!(place_i(imm as u32), w & 0xfff00000);
        } else {
            panic!("ADDI word failed to decode");
        }

        // S-type: SB
        let w = (raw & !0x7fu32) | 0b0100011;
        let w = w & !(0x7u32 << 12);
        if let Ok(Instruction::Sb { imm, .. }) = Instruction::decode(w) {
            assert_eq!(place_s(imm as u32), w & 0xfe000f80);
        } else {
            panic!("SB word failed to decode");
        }

        // B-type: BEQ
        let w = (raw & !0x7fu32) | 0b1100011;
        let w = w & !(0x7u32 << 12);
        if let Ok(Instruction::Beq { imm, .. }) = Instruction::decode(w) {
            assert_eq!(place_b(imm as u32), w & 0xfe000f80);
        } else {
            panic!("BEQ word failed to decode");
        }

        // U-type: LUI
        let w = (raw & !0x7fu32) | 0b0110111;
        if let Ok(Instruction::Lui { imm, .. }) = Instruction::decode(w) {
            assert_eq!((imm as u32) & 0xfffff000, w & 0xfffff000);
        } else {
            panic!("LUI word failed to decode");
        }

        // J-type: JAL
        let w = (raw & !0x7fu32) | 0b1101111;
        if let Ok(Instruction::Jal { imm, .. }) = Instruction::decode(w) {
            assert_eq!(place_j(imm as u32), w & 0xfffff000);
        } else {
            panic!("JAL word failed to decode");
        }
    }
}

#[test]
fn reg_index_is_dense() {
    assert_eq!(Reg::X0.index(), 0);
    assert_eq!(Reg::X1.index(), 1);
    assert_eq!(Reg::X31.index(), 31);
    assert_eq!(Reg::Pc.index(), 32);
    assert_eq!(Reg::from_bits(0), Reg::X0);
    assert_eq!(Reg::from_bits(31), Reg::X31);
    assert_eq!(Reg::from_bits(32), Reg::Pc);
}
