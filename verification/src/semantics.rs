//! The mathematical model of a hart and the transition relation of one
//! executed instruction: what each RV64I instruction does to the 32
//! general registers, the program counter, the CSR bank and memory.

use vstd::prelude::*;
use crate::bits::{
    sext8_64, sext16_64, sext32_64, sext_imm64, shr_arith32, shr_arith64, to_signed64,
    wrap_add32, wrap_add64, wrap_sub32, wrap_sub64,
};
use crate::cpu::{Fault, Reg};
use crate::instruction::{lemma_decode_wf, spec_decode, Error, Instruction};
use crate::memory::{Mmu, TypeWidth};

verus! {

/// A hart's state as mathematics: the general registers, the program
/// counter, the CSR bank, and the memory backend it owns.
#[verifier::ext_equal]
pub ghost struct HartView<M> {
    pub gprs: Seq<u64>,
    pub pc: u64,
    pub csrs: Seq<u64>,
    pub mmu: M,
}

/// Read one register location from a hart state.
pub open spec fn rv<M>(v: HartView<M>, r: Reg) -> u64 {
    if r is Pc {
        v.pc
    } else {
        v.gprs[r.sidx()]
    }
}

/// A hart state with one register location written. A write to `x0`
/// changes nothing: the zero register is pinned at the register file.
pub open spec fn sv<M>(v: HartView<M>, r: Reg, val: u64) -> HartView<M> {
    if r is Pc {
        HartView { pc: val, ..v }
    } else if r is X0 {
        v
    } else {
        HartView { gprs: v.gprs.update(r.sidx(), val), ..v }
    }
}

/// A hart state with one CSR written.
pub open spec fn scsr<M>(v: HartView<M>, csr: int, val: u64) -> HartView<M> {
    HartView { csrs: v.csrs.update(csr, val), ..v }
}

/// The transition relation of executing one decoded instruction from
/// the state `pre`, where `pc_cur` is the address the instruction was
/// fetched from (the program counter in `pre` already points past it).
/// `post` is the state after the instruction and `r` says whether the
/// instruction completed or faulted; a faulting instruction leaves the
/// state as it was. JALR clears the low bit of its computed target, as
/// the ISA mandates, and the CSR forms read their `rs1` operand from
/// the state before the destination register is written.
pub open spec fn exec_rel<M: Mmu>(
    pre: HartView<M>,
    pc_cur: u64,
    inst: Instruction,
    post: HartView<M>,
    r: Result<(), Fault>,
) -> bool {
    match inst {
        Instruction::Lui { rd, imm } => r is Ok && post == sv(pre, rd, sext_imm64(imm)),
        Instruction::Auipc { rd, imm } => r is Ok && post == sv(
            pre,
            rd,
            wrap_add64(pc_cur, sext_imm64(imm)),
        ),
        Instruction::Jal { rd, imm } => r is Ok && post == sv(
            sv(pre, rd, pre.pc),
            Reg::Pc,
            wrap_add64(pc_cur, sext_imm64(imm)),
        ),
        Instruction::Jalr { rd, rs1, imm } => r is Ok && post == sv(
            sv(pre, rd, pre.pc),
            Reg::Pc,
            wrap_add64(rv(pre, rs1), sext_imm64(imm)) & !1u64,
        ),
        Instruction::Beq { rs1, rs2, imm } => r is Ok && post == (if rv(pre, rs1) == rv(
            pre,
            rs2,
        ) {
            sv(pre, Reg::Pc, wrap_add64(pc_cur, sext_imm64(imm)))
        } else {
            pre
        }),
        Instruction::Bne { rs1, rs2, imm } => r is Ok && post == (if rv(pre, rs1) != rv(
            pre,
            rs2,
        ) {
            sv(pre, Reg::Pc, wrap_add64(pc_cur, sext_imm64(imm)))
        } else {
            pre
        }),
        Instruction::Blt { rs1, rs2, imm } => r is Ok && post == (if to_signed64(rv(pre, rs1))
            < to_signed64(rv(pre, rs2)) {
            sv(pre, Reg::Pc, wrap_add64(pc_cur, sext_imm64(imm)))
        } else {
            pre
        }),
        Instruction::Bge { rs1, rs2, imm } => r is Ok && post == (if to_signed64(rv(pre, rs1))
            >= to_signed64(rv(pre, rs2)) {
            sv(pre, Reg::Pc, wrap_add64(pc_cur, sext_imm64(imm)))
        } else {
            pre
        }),
        Instruction::Bltu { rs1, rs2, imm } => r is Ok && post == (if rv(pre, rs1) < rv(
            pre,
            rs2,
        ) {
            sv(pre, Reg::Pc, wrap_add64(pc_cur, sext_imm64(imm)))
        } else {
            pre
        }),
        Instruction::Bgeu { rs1, rs2, imm } => r is Ok && post == (if rv(pre, rs1) >= rv(
            pre,
            rs2,
        ) {
            sv(pre, Reg::Pc, wrap_add64(pc_cur, sext_imm64(imm)))
        } else {
            pre
        }),
        Instruction::Lb { rd, rs1, imm } => load_rel(
            pre,
            post,
            r,
            rd,
            wrap_add64(rv(pre, rs1), sext_imm64(imm)),
            TypeWidth::Byte,
            sext8_64(pre.mmu.read_spec(wrap_add64(rv(pre, rs1), sext_imm64(imm)), TypeWidth::Byte)
                as u8),
        ),
        Instruction::Lh { rd, rs1, imm } => load_rel(
            pre,
            post,
            r,
            rd,
            wrap_add64(rv(pre, rs1), sext_imm64(imm)),
            TypeWidth::HalfWord,
            sext16_64(
                pre.mmu.read_spec(wrap_add64(rv(pre, rs1), sext_imm64(imm)), TypeWidth::HalfWord)
                    as u16,
            ),
        ),
        Instruction::Lw { rd, rs1, imm } => load_rel(
            pre,
            post,
            r,
            rd,
            wrap_add64(rv(pre, rs1), sext_imm64(imm)),
            TypeWidth::Word,
            sext32_64(
                pre.mmu.read_spec(wrap_add64(rv(pre, rs1), sext_imm64(imm)), TypeWidth::Word)
                    as u32,
            ),
        ),
        Instruction::Lbu { rd, rs1, imm } => load_rel(
            pre,
            post,
            r,
            rd,
            wrap_add64(rv(pre, rs1), sext_imm64(imm)),
            TypeWidth::Byte,
            pre.mmu.read_spec(wrap_add64(rv(pre, rs1), sext_imm64(imm)), TypeWidth::Byte),
        ),
        Instruction::Lhu { rd, rs1, imm } => load_rel(
            pre,
            post,
            r,
            rd,
            wrap_add64(rv(pre, rs1), sext_imm64(imm)),
            TypeWidth::HalfWord,
            pre.mmu.read_spec(wrap_add64(rv(pre, rs1), sext_imm64(imm)), TypeWidth::HalfWord),
        ),
        Instruction::Lwu { rd, rs1, imm } => load_rel(
            pre,
            post,
            r,
            rd,
            wrap_add64(rv(pre, rs1), sext_imm64(imm)),
            TypeWidth::Word,
            pre.mmu.read_spec(wrap_add64(rv(pre, rs1), sext_imm64(imm)), TypeWidth::Word),
        ),
        Instruction::Ld { rd, rs1, imm } => load_rel(
            pre,
            post,
            r,
            rd,
            wrap_add64(rv(pre, rs1), sext_imm64(imm)),
            TypeWidth::DoubleWord,
            pre.mmu.read_spec(wrap_add64(rv(pre, rs1), sext_imm64(imm)), TypeWidth::DoubleWord),
        ),
        Instruction::Sb { rs1, rs2, imm } => store_rel(
            pre,
            post,
            r,
            wrap_add64(rv(pre, rs1), sext_imm64(imm)),
            TypeWidth::Byte,
            (rv(pre, rs2) as u8) as u64,
        ),
        Instruction::Sh { rs1, rs2, imm } => store_rel(
            pre,
            post,
            r,
            wrap_add64(rv(pre, rs1), sext_imm64(imm)),
            TypeWidth::HalfWord,
            (rv(pre, rs2) as u16) as u64,
        ),
        Instruction::Sw { rs1, rs2, imm } => store_rel(
            pre,
            post,
            r,
            wrap_add64(rv(pre, rs1), sext_imm64(imm)),
            TypeWidth::Word,
            (rv(pre, rs2) as u32) as u64,
        ),
        Instruction::Sd { rs1, rs2, imm } => store_rel(
            pre,
            post,
            r,
            wrap_add64(rv(pre, rs1), sext_imm64(imm)),
            TypeWidth::DoubleWord,
            rv(pre, rs2),
        ),
        Instruction::Addi { rd, rs1, imm } => r is Ok && post == sv(
            pre,
            rd,
            wrap_add64(rv(pre, rs1), sext_imm64(imm)),
        ),
        Instruction::Slti { rd, rs1, imm } => r is Ok && post == sv(
            pre,
            rd,
            if to_signed64(rv(pre, rs1)) < imm {
                1u64
            } else {
                0u64
            },
        ),
        Instruction::Sltiu { rd, rs1, imm } => r is Ok && post == sv(
            pre,
            rd,
            if rv(pre, rs1) < sext_imm64(imm) {
                1u64
            } else {
                0u64
            },
        ),
        Instruction::Xori { rd, rs1, imm } => r is Ok && post == sv(
            pre,
            rd,
            rv(pre, rs1) ^ sext_imm64(imm),
        ),
        Instruction::Ori { rd, rs1, imm } => r is Ok && post == sv(
            pre,
            rd,
            rv(pre, rs1) | sext_imm64(imm),
        ),
        Instruction::Andi { rd, rs1, imm } => r is Ok && post == sv(
            pre,
            rd,
            rv(pre, rs1) & sext_imm64(imm),
        ),
        Instruction::Slli { rd, rs1, shamt } => r is Ok && post == sv(
            pre,
            rd,
            rv(pre, rs1) << shamt,
        ),
        Instruction::Srli { rd, rs1, shamt } => r is Ok && post == sv(
            pre,
            rd,
            rv(pre, rs1) >> shamt,
        ),
        Instruction::Srai { rd, rs1, shamt } => r is Ok && post == sv(
            pre,
            rd,
            shr_arith64(rv(pre, rs1), shamt as u64),
        ),
        Instruction::Addiw { rd, rs1, imm } => r is Ok && post == sv(
            pre,
            rd,
            sext32_64(wrap_add32(rv(pre, rs1) as u32, imm as u32)),
        ),
        Instruction::Slliw { rd, rs1, shamt } => r is Ok && post == sv(
            pre,
            rd,
            sext32_64((rv(pre, rs1) as u32) << shamt),
        ),
        Instruction::Srliw { rd, rs1, shamt } => r is Ok && post == sv(
            pre,
            rd,
            sext32_64((rv(pre, rs1) as u32) >> shamt),
        ),
        Instruction::Sraiw { rd, rs1, shamt } => r is Ok && post == sv(
            pre,
            rd,
            sext32_64(shr_arith32(rv(pre, rs1) as u32, shamt as u64)),
        ),
        Instruction::Add { rd, rs1, rs2 } => r is Ok && post == sv(
            pre,
            rd,
            wrap_add64(rv(pre, rs1), rv(pre, rs2)),
        ),
        Instruction::Sub { rd, rs1, rs2 } => r is Ok && post == sv(
            pre,
            rd,
            wrap_sub64(rv(pre, rs1), rv(pre, rs2)),
        ),
        Instruction::Sll { rd, rs1, rs2 } => r is Ok && post == sv(
            pre,
            rd,
            rv(pre, rs1) << (rv(pre, rs2) & 0x3f),
        ),
        Instruction::Slt { rd, rs1, rs2 } => r is Ok && post == sv(
            pre,
            rd,
            if to_signed64(rv(pre, rs1)) < to_signed64(rv(pre, rs2)) {
                1u64
            } else {
                0u64
            },
        ),
        Instruction::Sltu { rd, rs1, rs2 } => r is Ok && post == sv(
            pre,
            rd,
            if rv(pre, rs1) < rv(pre, rs2) {
                1u64
            } else {
                0u64
            },
        ),
        Instruction::Xor { rd, rs1, rs2 } => r is Ok && post == sv(
            pre,
            rd,
            rv(pre, rs1) ^ rv(pre, rs2),
        ),
        Instruction::Srl { rd, rs1, rs2 } => r is Ok && post == sv(
            pre,
            rd,
            rv(pre, rs1) >> (rv(pre, rs2) & 0x3f),
        ),
        Instruction::Sra { rd, rs1, rs2 } => r is Ok && post == sv(
            pre,
            rd,
            shr_arith64(rv(pre, rs1), rv(pre, rs2) & 0x3f),
        ),
        Instruction::Or { rd, rs1, rs2 } => r is Ok && post == sv(
            pre,
            rd,
            rv(pre, rs1) | rv(pre, rs2),
        ),
        Instruction::And { rd, rs1, rs2 } => r is Ok && post == sv(
            pre,
            rd,
            rv(pre, rs1) & rv(pre, rs2),
        ),
        Instruction::Addw { rd, rs1, rs2 } => r is Ok && post == sv(
            pre,
            rd,
            sext32_64(wrap_add32(rv(pre, rs1) as u32, rv(pre, rs2) as u32)),
        ),
        Instruction::Subw { rd, rs1, rs2 } => r is Ok && post == sv(
            pre,
            rd,
            sext32_64(wrap_sub32(rv(pre, rs1) as u32, rv(pre, rs2) as u32)),
        ),
        Instruction::Sllw { rd, rs1, rs2 } => r is Ok && post == sv(
            pre,
            rd,
            sext32_64((rv(pre, rs1) as u32) << ((rv(pre, rs2) & 0x1f) as u32)),
        ),
        Instruction::Srlw { rd, rs1, rs2 } => r is Ok && post == sv(
            pre,
            rd,
            sext32_64((rv(pre, rs1) as u32) >> (rv(pre, rs2) & 0x1f)),
        ),
        Instruction::Sraw { rd, rs1, rs2 } => r is Ok && post == sv(
            pre,
            rd,
            sext32_64(shr_arith32(rv(pre, rs1) as u32, rv(pre, rs2) & 0x1f)),
        ),
        Instruction::Fence {  } => r is Ok && post == pre,
        Instruction::Ecall => r is Ok && post == sv(pre, Reg::Pc, pre.csrs[0x305]),
        Instruction::Ebreak => r == Err::<(), Fault>(Fault::Unimplemented) && post == pre,
        Instruction::Sret => r == Err::<(), Fault>(Fault::Unimplemented) && post == pre,
        Instruction::Mret => r is Ok && post == sv(
            scsr(pre, 0x342, 11),
            Reg::Pc,
            pre.csrs[0x341],
        ),
        Instruction::Csrrw { rd, rs1, csr } => {
            let s1 = sv(pre, rd, pre.csrs[csr as int]);
            r is Ok && post == scsr(s1, csr as int, rv(pre, rs1))
        },
        Instruction::Csrrs { rd, rs1, csr } => {
            let old_v = pre.csrs[csr as int];
            let s1 = sv(pre, rd, old_v);
            r is Ok && post == (if !(rs1 is X0) {
                scsr(s1, csr as int, old_v | rv(pre, rs1))
            } else {
                s1
            })
        },
        Instruction::Csrrc { .. } => r == Err::<(), Fault>(Fault::Unimplemented) && post == pre,
        Instruction::Csrrwi { rd, uimm, csr } => {
            let s1 = sv(pre, rd, pre.csrs[csr as int]);
            r is Ok && post == scsr(s1, csr as int, uimm as u64)
        },
        Instruction::Csrrsi { .. } => r == Err::<(), Fault>(Fault::Unimplemented) && post
            == pre,
        Instruction::Csrrci { .. } => r == Err::<(), Fault>(Fault::Unimplemented) && post
            == pre,
    }
}

/// What a load instruction does: if memory accepts the access, the
/// destination register takes `value` (the loaded bytes extended per
/// the mnemonic) and nothing else changes; otherwise the step faults
/// with the effective address and the state is untouched.
pub open spec fn load_rel<M: Mmu>(
    pre: HartView<M>,
    post: HartView<M>,
    r: Result<(), Fault>,
    rd: Reg,
    addr: u64,
    width: TypeWidth,
    value: u64,
) -> bool {
    if pre.mmu.can_read(addr, width) {
        r is Ok && post == sv(pre, rd, value)
    } else {
        r == Err::<(), Fault>(Fault::MemAccess(addr)) && post == pre
    }
}

/// What a store instruction does: if memory accepts the access, the
/// backend takes the low bits of the source register at the effective
/// address and the registers are untouched; otherwise the step faults
/// with the effective address and the state is untouched.
pub open spec fn store_rel<M: Mmu>(
    pre: HartView<M>,
    post: HartView<M>,
    r: Result<(), Fault>,
    addr: u64,
    width: TypeWidth,
    value: u64,
) -> bool {
    if pre.mmu.can_write(addr, width) {
        r is Ok && post.gprs == pre.gprs && post.pc == pre.pc && post.csrs == pre.csrs
            && M::write_rel(pre.mmu, addr, value, width, post.mmu)
    } else {
        r == Err::<(), Fault>(Fault::MemAccess(addr)) && post == pre
    }
}

/// What fetching one instruction word does: on success the program
/// counter advances by 4 and the little-endian word at the old program
/// counter is returned; a fetch outside the mapped range faults and
/// leaves the state untouched.
pub open spec fn fetch_rel<M: Mmu>(
    pre: HartView<M>,
    post: HartView<M>,
    r: Result<u32, Fault>,
) -> bool {
    if pre.mmu.can_read(pre.pc, TypeWidth::Word) {
        r == Ok::<u32, Fault>(pre.mmu.read_spec(pre.pc, TypeWidth::Word) as u32) && post == sv(
            pre,
            Reg::Pc,
            wrap_add64(pre.pc, 4),
        )
    } else {
        r == Err::<u32, Fault>(Fault::MemAccess(pre.pc)) && post == pre
    }
}

/// The word `step` fetches from a state: the 32-bit value at the
/// program counter.
pub open spec fn fetched_word<M: Mmu>(pre: HartView<M>) -> u32 {
    pre.mmu.read_spec(pre.pc, TypeWidth::Word) as u32
}

/// The one-instruction transition relation of a hart: fetch the word
/// at the program counter, advance the program counter by 4, decode,
/// and execute. A fetch fault leaves the state untouched; a decode
/// failure leaves the advanced program counter in place; execution
/// follows `exec_rel` with the fetched instruction's own address.
pub open spec fn step_rel<M: Mmu>(
    pre: HartView<M>,
    post: HartView<M>,
    r: Result<(), Fault>,
) -> bool {
    if pre.mmu.can_read(pre.pc, TypeWidth::Word) {
        let mid = sv(pre, Reg::Pc, wrap_add64(pre.pc, 4));
        match spec_decode(fetched_word(pre)) {
            Ok(inst) => exec_rel(mid, pre.pc, inst, post, r),
            Err(e) => r == Err::<(), Fault>(Fault::DecodeFailed(e)) && post == mid,
        }
    } else {
        r == Err::<(), Fault>(Fault::MemAccess(pre.pc)) && post == pre
    }
}


/// Register writes applied in order to a hart state, oldest first.
pub open spec fn apply_writes<M>(v: HartView<M>, ws: Seq<(Reg, u64)>) -> HartView<M>
    decreases ws.len(),
{
    if ws.len() == 0 {
        v
    } else {
        sv(apply_writes(v, ws.drop_last()), ws.last().0, ws.last().1)
    }
}

/// Law: whatever sequence of register writes is applied to a state
/// whose zero register holds zero, `x0` still reads as zero — writes
/// aimed at `x0` are discarded and perturb nothing.
pub proof fn lemma_x0_reads_zero<M>(v: HartView<M>, ws: Seq<(Reg, u64)>)
    requires
        v.gprs.len() == 32,
        v.gprs[0] == 0,
    ensures
        apply_writes(v, ws).gprs.len() == 32,
        rv(apply_writes(v, ws), Reg::X0) == 0,
    decreases ws.len(),
{
    if ws.len() > 0 {
        lemma_x0_reads_zero(v, ws.drop_last());
    }
}

/// Whether executing `inst` from the registers of `v` moves control
/// somewhere other than the next instruction: a jump, ECALL, MRET, or
/// a branch whose condition holds.
pub open spec fn transfers_control<M: Mmu>(v: HartView<M>, inst: Instruction) -> bool {
    match inst {
        Instruction::Jal { .. } => true,
        Instruction::Jalr { .. } => true,
        Instruction::Ecall => true,
        Instruction::Mret => true,
        Instruction::Beq { rs1, rs2, .. } => rv(v, rs1) == rv(v, rs2),
        Instruction::Bne { rs1, rs2, .. } => rv(v, rs1) != rv(v, rs2),
        Instruction::Blt { rs1, rs2, .. } => to_signed64(rv(v, rs1)) < to_signed64(rv(v, rs2)),
        Instruction::Bge { rs1, rs2, .. } => to_signed64(rv(v, rs1)) >= to_signed64(rv(v, rs2)),
        Instruction::Bltu { rs1, rs2, .. } => rv(v, rs1) < rv(v, rs2),
        Instruction::Bgeu { rs1, rs2, .. } => rv(v, rs1) >= rv(v, rs2),
        _ => false,
    }
}

/// Law: when a step completes and the instruction it executed is
/// neither a taken branch, a jump, ECALL nor MRET, the program
/// counter after the step is the instruction's address plus four.
#[verifier::rlimit(60)]
#[verifier::spinoff_prover]
pub proof fn lemma_step_pc_advances<M: Mmu>(
    pre: HartView<M>,
    post: HartView<M>,
    inst: Instruction,
)
    requires
        step_rel(pre, post, Ok(())),
        pre.mmu.can_read(pre.pc, TypeWidth::Word),
        spec_decode(fetched_word(pre)) == Ok::<Instruction, Error>(inst),
        !transfers_control(pre, inst),
    ensures
        post.pc == wrap_add64(pre.pc, 4),
{
    lemma_decode_wf(fetched_word(pre));
    let mid = sv(pre, Reg::Pc, wrap_add64(pre.pc, 4));
    assert(mid.gprs == pre.gprs);
}

} // verus!
