//! The concrete hart: 32 general registers plus a program counter in
//! one dense register file, a 4096-entry CSR bank, and a memory
//! backend. Its step function is proved to follow the transition
//! relation in `semantics`.

use vstd::prelude::*;
use vstd::pervasive::unreached;
use crate::bits::{
    lemma_mask5_u64, lemma_mask6_u64, lemma_signed_of_sext, sign_extend_imm, sign_extend_u16,
    sign_extend_u32, sign_extend_u8, signed_less_than, shift_right_arith32, shift_right_arith64,
    wrap_add64,
};
use crate::cpu::{Fault, Hart, Reg};
use crate::instruction::{lemma_decode_wf, Instruction};
use crate::memory::{Mmu, TypeWidth};
use crate::semantics::{exec_rel, fetch_rel, rv, scsr, step_rel, sv, HartView};

verus! {

/// Build a zero-filled word vector of the given length.
fn zero_words(n: usize) -> (r: Vec<u64>)
    ensures
        r@.len() == n,
        forall|i: int| 0 <= i < n ==> r@[i] == 0u64,
{
    let r: Vec<u64> = vec![0u64; n];
    proof {
        assert forall|i: int| 0 <= i < n implies r@[i] == 0u64 by {
            assert(cloned(0u64, r@[i]));
        }
    }
    r
}

/// A single hardware thread. The register file holds the 32 general
/// purpose registers in entries 0..=31 and the program counter in
/// entry 32; entry 0 is pinned to zero at this boundary, so every
/// write to `x0` is discarded here and nowhere else.
pub struct SimpleHart<M: Mmu> {
    pub registers: Vec<u64>,
    pub csr: Vec<u64>,
    pub mmu: M,
}

impl<M: Mmu> View for SimpleHart<M> {
    type V = HartView<M>;

    open spec fn view(&self) -> HartView<M> {
        HartView {
            gprs: self.registers@.subrange(0, 32),
            pc: self.registers@[32],
            csrs: self.csr@,
            mmu: self.mmu,
        }
    }
}

impl<M: Mmu> SimpleHart<M> {
    /// Well-formedness: 33 register slots with `x0` pinned to zero,
    /// a full CSR bank, and a well-formed memory backend.
    pub open spec fn wf(&self) -> bool {
        &&& self.registers@.len() == 33
        &&& self.registers@[0] == 0
        &&& self.csr@.len() == 4096
        &&& self.mmu.inv()
    }

    /// A fresh hart: all registers, the program counter and all CSRs
    /// start at zero.
    pub fn new(mmu: M) -> (r: SimpleHart<M>)
        requires
            mmu.inv(),
        ensures
            r.wf(),
            r@.pc == 0,
            r@.mmu == mmu,
            forall|i: int| 0 <= i < 32 ==> r@.gprs[i] == 0u64,
            forall|i: int| 0 <= i < 4096 ==> r@.csrs[i] == 0u64,
    {
        SimpleHart { registers: zero_words(33), csr: zero_words(4096), mmu }
    }

    /// Read one CSR.
    pub fn read_csr(&self, n: u16) -> (v: u64)
        requires
            self.wf(),
            n < 4096,
        ensures
            v == self@.csrs[n as int],
    {
        self.csr[n as usize]
    }

    /// Write one CSR.
    pub fn write_csr(&mut self, n: u16, value: u64)
        requires
            old(self).wf(),
            n < 4096,
        ensures
            final(self).wf(),
            final(self)@ == scsr(old(self)@, n as int, value),
    {
        self.csr[n as usize] = value;
        proof {
            assert(self@ =~= scsr(old(self)@, n as int, value));
        }
    }

    /// Fetch the 32-bit word at the program counter and advance the
    /// program counter past it.
    pub fn fetch_u32(&mut self) -> (r: Result<u32, Fault>)
        requires
            old(self).wf(),
        ensures
            final(self).wf(),
            fetch_rel(old(self)@, final(self)@, r),
    {
        let pc = self.reg(Reg::Pc);
        match self.mmu.read(pc, TypeWidth::Word) {
            Ok(v) => {
                self.set_reg(Reg::Pc, pc.wrapping_add(4));
                proof {
                    assert(self@ =~= sv(old(self)@, Reg::Pc, wrap_add64(pc, 4)));
                }
                Ok(v as u32)
            },
            Err(_) => Err(Fault::MemAccess(pc)),
        }
    }

    /// Execute one decoded instruction whose own address is
    /// `current_pc`; the program counter already points past it.
    pub fn execute_instruction(&mut self, current_pc: u64, inst: Instruction) -> (r: Result<
        (),
        Fault,
    >)
        requires
            old(self).wf(),
            inst.wf(),
        ensures
            final(self).wf(),
            exec_rel(old(self)@, current_pc, inst, final(self)@, r),
    {
        match inst {
            Instruction::Lui { .. } | Instruction::Auipc { .. } | Instruction::Jal { .. }
            | Instruction::Jalr { .. } => self.exec_upper(current_pc, inst),
            Instruction::Beq { .. } | Instruction::Bne { .. } | Instruction::Blt { .. }
            | Instruction::Bge { .. } | Instruction::Bltu { .. } | Instruction::Bgeu { .. } => self
                .exec_branch(current_pc, inst),
            Instruction::Lb { .. } | Instruction::Lh { .. } | Instruction::Lw { .. }
            | Instruction::Lbu { .. } | Instruction::Lhu { .. } | Instruction::Lwu { .. }
            | Instruction::Ld { .. } => self.exec_load(current_pc, inst),
            Instruction::Sb { .. } | Instruction::Sh { .. } | Instruction::Sw { .. }
            | Instruction::Sd { .. } => self.exec_store(current_pc, inst),
            Instruction::Addi { .. } | Instruction::Slti { .. } | Instruction::Sltiu { .. }
            | Instruction::Xori { .. } | Instruction::Ori { .. } | Instruction::Andi { .. }
            | Instruction::Slli { .. } | Instruction::Srli { .. } | Instruction::Srai { .. } => self
                .exec_op_imm(current_pc, inst),
            Instruction::Addiw { .. } | Instruction::Slliw { .. } | Instruction::Srliw { .. }
            | Instruction::Sraiw { .. } => self.exec_op_imm_32(current_pc, inst),
            Instruction::Add { .. } | Instruction::Sub { .. } | Instruction::Sll { .. }
            | Instruction::Slt { .. } | Instruction::Sltu { .. } | Instruction::Xor { .. }
            | Instruction::Srl { .. } | Instruction::Sra { .. } | Instruction::Or { .. }
            | Instruction::And { .. } => self.exec_op(current_pc, inst),
            Instruction::Addw { .. } | Instruction::Subw { .. } | Instruction::Sllw { .. }
            | Instruction::Srlw { .. } | Instruction::Sraw { .. } => self.exec_op_32(
                current_pc,
                inst,
            ),
            Instruction::Fence { .. } | Instruction::Ecall { .. } | Instruction::Ebreak { .. }
            | Instruction::Sret { .. } | Instruction::Mret { .. } | Instruction::Csrrw { .. }
            | Instruction::Csrrs { .. } | Instruction::Csrrc { .. } | Instruction::Csrrwi { .. }
            | Instruction::Csrrsi { .. } | Instruction::Csrrci { .. } => self.exec_system(
                current_pc,
                inst,
            ),
        }
    }

    /// Execute the LUI, AUIPC, JAL and JALR forms.
    #[verifier::spinoff_prover]
    fn exec_upper(&mut self, current_pc: u64, inst: Instruction) -> (r: Result<(), Fault>)
        requires
            old(self).wf(),
            inst.wf(),
            inst is Lui || inst is Auipc || inst is Jal || inst is Jalr,
        ensures
            final(self).wf(),
            exec_rel(old(self)@, current_pc, inst, final(self)@, r),
    {
        match inst {
            Instruction::Lui { rd, imm } => {
                let v = sign_extend_imm(imm);
                self.set_reg(rd, v);
                proof {
                    assert(self@ =~= sv(old(self)@, rd, v));
                }
                Ok(())
            },
            Instruction::Auipc { rd, imm } => {
                let target = current_pc.wrapping_add(sign_extend_imm(imm));
                self.set_reg(rd, target);
                proof {
                    assert(self@ =~= sv(old(self)@, rd, target));
                }
                Ok(())
            },
            Instruction::Jal { rd, imm } => {
                let target = current_pc.wrapping_add(sign_extend_imm(imm));
                let return_address = self.reg(Reg::Pc);
                self.set_reg(rd, return_address);
                proof {
                    assert(self@ =~= sv(old(self)@, rd, return_address));
                }
                let ghost mid = self@;
                self.set_reg(Reg::Pc, target);
                proof {
                    assert(self@ =~= sv(mid, Reg::Pc, target));
                }
                Ok(())
            },
            Instruction::Jalr { rd, rs1, imm } => {
                let target = self.reg(rs1).wrapping_add(sign_extend_imm(imm)) & !1u64;
                let return_address = self.reg(Reg::Pc);
                self.set_reg(rd, return_address);
                proof {
                    assert(self@ =~= sv(old(self)@, rd, return_address));
                }
                let ghost mid = self@;
                self.set_reg(Reg::Pc, target);
                proof {
                    assert(self@ =~= sv(mid, Reg::Pc, target));
                }
                Ok(())
            },
            _ => unreached(),
        }
    }

    /// Execute the conditional branches.
    #[verifier::spinoff_prover]
    fn exec_branch(&mut self, current_pc: u64, inst: Instruction) -> (r: Result<(), Fault>)
        requires
            old(self).wf(),
            inst.wf(),
            inst is Beq || inst is Bne || inst is Blt || inst is Bge || inst is Bltu
                || inst is Bgeu,
        ensures
            final(self).wf(),
            exec_rel(old(self)@, current_pc, inst, final(self)@, r),
    {
        match inst {
            Instruction::Beq { rs1, rs2, imm } => {
                if self.reg(rs1) == self.reg(rs2) {
                    let target = current_pc.wrapping_add(sign_extend_imm(imm));
                    self.set_reg(Reg::Pc, target);
                    proof {
                        assert(self@ =~= sv(old(self)@, Reg::Pc, target));
                    }
                }
                Ok(())
            },
            Instruction::Bne { rs1, rs2, imm } => {
                if self.reg(rs1) != self.reg(rs2) {
                    let target = current_pc.wrapping_add(sign_extend_imm(imm));
                    self.set_reg(Reg::Pc, target);
                    proof {
                        assert(self@ =~= sv(old(self)@, Reg::Pc, target));
                    }
                }
                Ok(())
            },
            Instruction::Blt { rs1, rs2, imm } => {
                if signed_less_than(self.reg(rs1), self.reg(rs2)) {
                    let target = current_pc.wrapping_add(sign_extend_imm(imm));
                    self.set_reg(Reg::Pc, target);
                    proof {
                        assert(self@ =~= sv(old(self)@, Reg::Pc, target));
                    }
                }
                Ok(())
            },
            Instruction::Bge { rs1, rs2, imm } => {
                if !signed_less_than(self.reg(rs1), self.reg(rs2)) {
                    let target = current_pc.wrapping_add(sign_extend_imm(imm));
                    self.set_reg(Reg::Pc, target);
                    proof {
                        assert(self@ =~= sv(old(self)@, Reg::Pc, target));
                    }
                }
                Ok(())
            },
            Instruction::Bltu { rs1, rs2, imm } => {
                if self.reg(rs1) < self.reg(rs2) {
                    let target = current_pc.wrapping_add(sign_extend_imm(imm));
                    self.set_reg(Reg::Pc, target);
                    proof {
                        assert(self@ =~= sv(old(self)@, Reg::Pc, target));
                    }
                }
                Ok(())
            },
            Instruction::Bgeu { rs1, rs2, imm } => {
                if self.reg(rs1) >= self.reg(rs2) {
                    let target = current_pc.wrapping_add(sign_extend_imm(imm));
                    self.set_reg(Reg::Pc, target);
                    proof {
                        assert(self@ =~= sv(old(self)@, Reg::Pc, target));
                    }
                }
                Ok(())
            },
            _ => unreached(),
        }
    }

    /// Execute the loads.
    #[verifier::spinoff_prover]
    fn exec_load(&mut self, current_pc: u64, inst: Instruction) -> (r: Result<(), Fault>)
        requires
            old(self).wf(),
            inst.wf(),
            inst is Lb || inst is Lh || inst is Lw || inst is Lbu || inst is Lhu || inst is Lwu
                || inst is Ld,
        ensures
            final(self).wf(),
            exec_rel(old(self)@, current_pc, inst, final(self)@, r),
    {
        match inst {
            Instruction::Lb { rd, rs1, imm } => {
                let addr = self.reg(rs1).wrapping_add(sign_extend_imm(imm));
                match self.mmu.read_u8(addr) {
                    Ok(b) => {
                        let value = sign_extend_u8(b);
                        self.set_reg(rd, value);
                        proof {
                            assert(self@ =~= sv(old(self)@, rd, value));
                        }
                        Ok(())
                    },
                    Err(_) => Err(Fault::MemAccess(addr)),
                }
            },
            Instruction::Lh { rd, rs1, imm } => {
                let addr = self.reg(rs1).wrapping_add(sign_extend_imm(imm));
                match self.mmu.read_u16(addr) {
                    Ok(h) => {
                        let value = sign_extend_u16(h);
                        self.set_reg(rd, value);
                        proof {
                            assert(self@ =~= sv(old(self)@, rd, value));
                        }
                        Ok(())
                    },
                    Err(_) => Err(Fault::MemAccess(addr)),
                }
            },
            Instruction::Lw { rd, rs1, imm } => {
                let addr = self.reg(rs1).wrapping_add(sign_extend_imm(imm));
                match self.mmu.read_u32(addr) {
                    Ok(w) => {
                        let value = sign_extend_u32(w);
                        self.set_reg(rd, value);
                        proof {
                            assert(self@ =~= sv(old(self)@, rd, value));
                        }
                        Ok(())
                    },
                    Err(_) => Err(Fault::MemAccess(addr)),
                }
            },
            Instruction::Lbu { rd, rs1, imm } => {
                let addr = self.reg(rs1).wrapping_add(sign_extend_imm(imm));
                match self.mmu.read_u8(addr) {
                    Ok(b) => {
                        let value = b as u64;
                        self.set_reg(rd, value);
                        proof {
                            assert(self@ =~= sv(old(self)@, rd, value));
                        }
                        Ok(())
                    },
                    Err(_) => Err(Fault::MemAccess(addr)),
                }
            },
            Instruction::Lhu { rd, rs1, imm } => {
                let addr = self.reg(rs1).wrapping_add(sign_extend_imm(imm));
                match self.mmu.read_u16(addr) {
                    Ok(h) => {
                        let value = h as u64;
                        self.set_reg(rd, value);
                        proof {
                            assert(self@ =~= sv(old(self)@, rd, value));
                        }
                        Ok(())
                    },
                    Err(_) => Err(Fault::MemAccess(addr)),
                }
            },
            Instruction::Lwu { rd, rs1, imm } => {
                let addr = self.reg(rs1).wrapping_add(sign_extend_imm(imm));
                match self.mmu.read_u32(addr) {
                    Ok(w) => {
                        let value = w as u64;
                        self.set_reg(rd, value);
                        proof {
                            assert(self@ =~= sv(old(self)@, rd, value));
                        }
                        Ok(())
                    },
                    Err(_) => Err(Fault::MemAccess(addr)),
                }
            },
            Instruction::Ld { rd, rs1, imm } => {
                let addr = self.reg(rs1).wrapping_add(sign_extend_imm(imm));
                match self.mmu.read_u64(addr) {
                    Ok(d) => {
                        self.set_reg(rd, d);
                        proof {
                            assert(self@ =~= sv(old(self)@, rd, d));
                        }
                        Ok(())
                    },
                    Err(_) => Err(Fault::MemAccess(addr)),
                }
            },
            _ => unreached(),
        }
    }

    /// Execute the stores.
    #[verifier::spinoff_prover]
    fn exec_store(&mut self, current_pc: u64, inst: Instruction) -> (r: Result<(), Fault>)
        requires
            old(self).wf(),
            inst.wf(),
            inst is Sb || inst is Sh || inst is Sw || inst is Sd,
        ensures
            final(self).wf(),
            exec_rel(old(self)@, current_pc, inst, final(self)@, r),
    {
        match inst {
            Instruction::Sb { rs1, rs2, imm } => {
                let addr = self.reg(rs1).wrapping_add(sign_extend_imm(imm));
                let value = self.reg(rs2);
                match self.mmu.write_u8(addr, value as u8) {
                    Ok(_) => Ok(()),
                    Err(_) => Err(Fault::MemAccess(addr)),
                }
            },
            Instruction::Sh { rs1, rs2, imm } => {
                let addr = self.reg(rs1).wrapping_add(sign_extend_imm(imm));
                let value = self.reg(rs2);
                match self.mmu.write_u16(addr, value as u16) {
                    Ok(_) => Ok(()),
                    Err(_) => Err(Fault::MemAccess(addr)),
                }
            },
            Instruction::Sw { rs1, rs2, imm } => {
                let addr = self.reg(rs1).wrapping_add(sign_extend_imm(imm));
                let value = self.reg(rs2);
                match self.mmu.write_u32(addr, value as u32) {
                    Ok(_) => Ok(()),
                    Err(_) => Err(Fault::MemAccess(addr)),
                }
            },
            Instruction::Sd { rs1, rs2, imm } => {
                let addr = self.reg(rs1).wrapping_add(sign_extend_imm(imm));
                let value = self.reg(rs2);
                match self.mmu.write_u64(addr, value) {
                    Ok(_) => Ok(()),
                    Err(_) => Err(Fault::MemAccess(addr)),
                }
            },
            _ => unreached(),
        }
    }

    /// Execute the immediate ALU forms.
    #[verifier::spinoff_prover]
    fn exec_op_imm(&mut self, current_pc: u64, inst: Instruction) -> (r: Result<(), Fault>)
        requires
            old(self).wf(),
            inst.wf(),
            inst is Addi || inst is Slti || inst is Sltiu || inst is Xori || inst is Ori
                || inst is Andi || inst is Slli || inst is Srli || inst is Srai,
        ensures
            final(self).wf(),
            exec_rel(old(self)@, current_pc, inst, final(self)@, r),
    {
        match inst {
            Instruction::Addi { rd, rs1, imm } => {
                let v = self.reg(rs1).wrapping_add(sign_extend_imm(imm));
                self.set_reg(rd, v);
                proof {
                    assert(self@ =~= sv(old(self)@, rd, v));
                }
                Ok(())
            },
            Instruction::Slti { rd, rs1, imm } => {
                proof {
                    lemma_signed_of_sext(imm);
                }
                let v: u64 = if signed_less_than(self.reg(rs1), sign_extend_imm(imm)) {
                    1
                } else {
                    0
                };
                self.set_reg(rd, v);
                proof {
                    assert(self@ =~= sv(old(self)@, rd, v));
                }
                Ok(())
            },
            Instruction::Sltiu { rd, rs1, imm } => {
                let v: u64 = if self.reg(rs1) < sign_extend_imm(imm) {
                    1
                } else {
                    0
                };
                self.set_reg(rd, v);
                proof {
                    assert(self@ =~= sv(old(self)@, rd, v));
                }
                Ok(())
            },
            Instruction::Xori { rd, rs1, imm } => {
                let v = self.reg(rs1) ^ sign_extend_imm(imm);
                self.set_reg(rd, v);
                proof {
                    assert(self@ =~= sv(old(self)@, rd, v));
                }
                Ok(())
            },
            Instruction::Ori { rd, rs1, imm } => {
                let v = self.reg(rs1) | sign_extend_imm(imm);
                self.set_reg(rd, v);
                proof {
                    assert(self@ =~= sv(old(self)@, rd, v));
                }
                Ok(())
            },
            Instruction::Andi { rd, rs1, imm } => {
                let v = self.reg(rs1) & sign_extend_imm(imm);
                self.set_reg(rd, v);
                proof {
                    assert(self@ =~= sv(old(self)@, rd, v));
                }
                Ok(())
            },
            Instruction::Slli { rd, rs1, shamt } => {
                let v = self.reg(rs1) << shamt;
                self.set_reg(rd, v);
                proof {
                    assert(self@ =~= sv(old(self)@, rd, v));
                }
                Ok(())
            },
            Instruction::Srli { rd, rs1, shamt } => {
                let v = self.reg(rs1) >> shamt;
                self.set_reg(rd, v);
                proof {
                    assert(self@ =~= sv(old(self)@, rd, v));
                }
                Ok(())
            },
            Instruction::Srai { rd, rs1, shamt } => {
                let v = shift_right_arith64(self.reg(rs1), shamt as u64);
                self.set_reg(rd, v);
                proof {
                    assert(self@ =~= sv(old(self)@, rd, v));
                }
                Ok(())
            },
            _ => unreached(),
        }
    }

    /// Execute the 32-bit immediate ALU forms.
    #[verifier::spinoff_prover]
    fn exec_op_imm_32(&mut self, current_pc: u64, inst: Instruction) -> (r: Result<(), Fault>)
        requires
            old(self).wf(),
            inst.wf(),
            inst is Addiw || inst is Slliw || inst is Srliw || inst is Sraiw,
        ensures
            final(self).wf(),
            exec_rel(old(self)@, current_pc, inst, final(self)@, r),
    {
        match inst {
            Instruction::Addiw { rd, rs1, imm } => {
                let w = (self.reg(rs1) as u32).wrapping_add(imm as u32);
                let v = sign_extend_u32(w);
                self.set_reg(rd, v);
                proof {
                    assert(self@ =~= sv(old(self)@, rd, v));
                }
                Ok(())
            },
            Instruction::Slliw { rd, rs1, shamt } => {
                let w = (self.reg(rs1) as u32) << shamt;
                let v = sign_extend_u32(w);
                self.set_reg(rd, v);
                proof {
                    assert(self@ =~= sv(old(self)@, rd, v));
                }
                Ok(())
            },
            Instruction::Srliw { rd, rs1, shamt } => {
                let w = (self.reg(rs1) as u32) >> shamt;
                let v = sign_extend_u32(w);
                self.set_reg(rd, v);
                proof {
                    assert(self@ =~= sv(old(self)@, rd, v));
                }
                Ok(())
            },
            Instruction::Sraiw { rd, rs1, shamt } => {
                let w = shift_right_arith32(self.reg(rs1) as u32, shamt as u64);
                let v = sign_extend_u32(w);
                self.set_reg(rd, v);
                proof {
                    assert(self@ =~= sv(old(self)@, rd, v));
                }
                Ok(())
            },
            _ => unreached(),
        }
    }

    /// Execute the register-register ALU forms.
    #[verifier::spinoff_prover]
    fn exec_op(&mut self, current_pc: u64, inst: Instruction) -> (r: Result<(), Fault>)
        requires
            old(self).wf(),
            inst.wf(),
            inst is Add || inst is Sub || inst is Sll || inst is Slt || inst is Sltu
                || inst is Xor || inst is Srl || inst is Sra || inst is Or || inst is And,
        ensures
            final(self).wf(),
            exec_rel(old(self)@, current_pc, inst, final(self)@, r),
    {
        match inst {
            Instruction::Add { rd, rs1, rs2 } => {
                let v = self.reg(rs1).wrapping_add(self.reg(rs2));
                self.set_reg(rd, v);
                proof {
                    assert(self@ =~= sv(old(self)@, rd, v));
                }
                Ok(())
            },
            Instruction::Sub { rd, rs1, rs2 } => {
                let v = self.reg(rs1).wrapping_sub(self.reg(rs2));
                self.set_reg(rd, v);
                proof {
                    assert(self@ =~= sv(old(self)@, rd, v));
                }
                Ok(())
            },
            Instruction::Sll { rd, rs1, rs2 } => {
                let b = self.reg(rs2);
                proof {
                    lemma_mask6_u64(b);
                }
                let v = self.reg(rs1) << (b & 0x3f);
                self.set_reg(rd, v);
                proof {
                    assert(self@ =~= sv(old(self)@, rd, v));
                }
                Ok(())
            },
            Instruction::Slt { rd, rs1, rs2 } => {
                let v: u64 = if signed_less_than(self.reg(rs1), self.reg(rs2)) {
                    1
                } else {
                    0
                };
                self.set_reg(rd, v);
                proof {
                    assert(self@ =~= sv(old(self)@, rd, v));
                }
                Ok(())
            },
            Instruction::Sltu { rd, rs1, rs2 } => {
                let v: u64 = if self.reg(rs1) < self.reg(rs2) {
                    1
                } else {
                    0
                };
                self.set_reg(rd, v);
                proof {
                    assert(self@ =~= sv(old(self)@, rd, v));
                }
                Ok(())
            },
            Instruction::Xor { rd, rs1, rs2 } => {
                let v = self.reg(rs1) ^ self.reg(rs2);
                self.set_reg(rd, v);
                proof {
                    assert(self@ =~= sv(old(self)@, rd, v));
                }
                Ok(())
            },
            Instruction::Srl { rd, rs1, rs2 } => {
                let b = self.reg(rs2);
                proof {
                    lemma_mask6_u64(b);
                }
                let v = self.reg(rs1) >> (b & 0x3f);
                self.set_reg(rd, v);
                proof {
                    assert(self@ =~= sv(old(self)@, rd, v));
                }
                Ok(())
            },
            Instruction::Sra { rd, rs1, rs2 } => {
                let b = self.reg(rs2);
                proof {
                    lemma_mask6_u64(b);
                }
                let v = shift_right_arith64(self.reg(rs1), b & 0x3f);
                self.set_reg(rd, v);
                proof {
                    assert(self@ =~= sv(old(self)@, rd, v));
                }
                Ok(())
            },
            Instruction::Or { rd, rs1, rs2 } => {
                let v = self.reg(rs1) | self.reg(rs2);
                self.set_reg(rd, v);
                proof {
                    assert(self@ =~= sv(old(self)@, rd, v));
                }
                Ok(())
            },
            Instruction::And { rd, rs1, rs2 } => {
                let v = self.reg(rs1) & self.reg(rs2);
                self.set_reg(rd, v);
                proof {
                    assert(self@ =~= sv(old(self)@, rd, v));
                }
                Ok(())
            },
            _ => unreached(),
        }
    }

    /// Execute the 32-bit register-register ALU forms.
    #[verifier::spinoff_prover]
    fn exec_op_32(&mut self, current_pc: u64, inst: Instruction) -> (r: Result<(), Fault>)
        requires
            old(self).wf(),
            inst.wf(),
            inst is Addw || inst is Subw || inst is Sllw || inst is Srlw || inst is Sraw,
        ensures
            final(self).wf(),
            exec_rel(old(self)@, current_pc, inst, final(self)@, r),
    {
        match inst {
            Instruction::Addw { rd, rs1, rs2 } => {
                let a = self.reg(rs1) as u32;
                let b = self.reg(rs2) as u32;
                let v = sign_extend_u32(a.wrapping_add(b));
                self.set_reg(rd, v);
                proof {
                    assert(self@ =~= sv(old(self)@, rd, v));
                }
                Ok(())
            },
            Instruction::Subw { rd, rs1, rs2 } => {
                let a = self.reg(rs1) as u32;
                let b = self.reg(rs2) as u32;
                let v = sign_extend_u32(a.wrapping_sub(b));
                self.set_reg(rd, v);
                proof {
                    assert(self@ =~= sv(old(self)@, rd, v));
                }
                Ok(())
            },
            Instruction::Sllw { rd, rs1, rs2 } => {
                let b = self.reg(rs2);
                proof {
                    lemma_mask5_u64(b);
                }
                let sh = (b & 0x1f) as u32;
                let v = sign_extend_u32((self.reg(rs1) as u32) << sh);
                self.set_reg(rd, v);
                proof {
                    assert(self@ =~= sv(old(self)@, rd, v));
                }
                Ok(())
            },
            Instruction::Srlw { rd, rs1, rs2 } => {
                let b = self.reg(rs2);
                proof {
                    lemma_mask5_u64(b);
                }
                let v = sign_extend_u32((self.reg(rs1) as u32) >> (b & 0x1f));
                self.set_reg(rd, v);
                proof {
                    assert(self@ =~= sv(old(self)@, rd, v));
                }
                Ok(())
            },
            Instruction::Sraw { rd, rs1, rs2 } => {
                let b = self.reg(rs2);
                proof {
                    lemma_mask5_u64(b);
                }
                let v = sign_extend_u32(shift_right_arith32(self.reg(rs1) as u32, b & 0x1f));
                self.set_reg(rd, v);
                proof {
                    assert(self@ =~= sv(old(self)@, rd, v));
                }
                Ok(())
            },
            _ => unreached(),
        }
    }

    /// Execute FENCE, the trap forms and the CSR forms.
    #[verifier::spinoff_prover]
    fn exec_system(&mut self, current_pc: u64, inst: Instruction) -> (r: Result<(), Fault>)
        requires
            old(self).wf(),
            inst.wf(),
            inst is Fence || inst is Ecall || inst is Ebreak || inst is Sret || inst is Mret
                || inst is Csrrw || inst is Csrrs || inst is Csrrc || inst is Csrrwi
                || inst is Csrrsi || inst is Csrrci,
        ensures
            final(self).wf(),
            exec_rel(old(self)@, current_pc, inst, final(self)@, r),
    {
        match inst {
            Instruction::Fence {  } => Ok(()),
            Instruction::Ecall => {
                let target = self.read_csr(0x305);
                self.set_reg(Reg::Pc, target);
                proof {
                    assert(self@ =~= sv(old(self)@, Reg::Pc, target));
                }
                Ok(())
            },
            Instruction::Ebreak => Err(Fault::Unimplemented),
            Instruction::Sret => Err(Fault::Unimplemented),
            Instruction::Mret => {
                self.write_csr(0x342, 11);
                let ghost mid = self@;
                let target = self.read_csr(0x341);
                self.set_reg(Reg::Pc, target);
                proof {
                    assert(self@ =~= sv(mid, Reg::Pc, target));
                }
                Ok(())
            },
            Instruction::Csrrw { rd, rs1, csr } => {
                // Read the source before the destination can alias it:
                // the CSR always receives the old value of `rs1`.
                let v = self.reg(rs1);
                if rd != Reg::X0 {
                    let old_value = self.read_csr(csr);
                    self.set_reg(rd, old_value);
                    proof {
                        assert(self@ =~= sv(old(self)@, rd, old_value));
                    }
                }
                proof {
                    assert(self@ =~= sv(old(self)@, rd, old(self)@.csrs[csr as int]));
                }
                let ghost mid = self@;
                self.write_csr(csr, v);
                proof {
                    assert(self@ =~= scsr(mid, csr as int, rv(old(self)@, rs1)));
                }
                Ok(())
            },
            Instruction::Csrrs { rd, rs1, csr } => {
                // Read the source before the destination can alias it.
                let v = self.reg(rs1);
                let old_value = self.read_csr(csr);
                self.set_reg(rd, old_value);
                proof {
                    assert(self@ =~= sv(old(self)@, rd, old_value));
                }
                let ghost mid = self@;
                if rs1 != Reg::X0 {
                    self.write_csr(csr, old_value | v);
                    proof {
                        assert(self@ =~= scsr(mid, csr as int, old_value | rv(old(self)@, rs1)));
                    }
                }
                Ok(())
            },
            Instruction::Csrrc { .. } => Err(Fault::Unimplemented),
            Instruction::Csrrwi { rd, uimm, csr } => {
                if rd != Reg::X0 {
                    let old_value = self.read_csr(csr);
                    self.set_reg(rd, old_value);
                    proof {
                        assert(self@ =~= sv(old(self)@, rd, old_value));
                    }
                }
                proof {
                    assert(self@ =~= sv(old(self)@, rd, old(self)@.csrs[csr as int]));
                }
                let ghost mid = self@;
                self.write_csr(csr, uimm as u64);
                proof {
                    assert(self@ =~= scsr(mid, csr as int, uimm as u64));
                }
                Ok(())
            },
            Instruction::Csrrsi { .. } => Err(Fault::Unimplemented),
            Instruction::Csrrci { .. } => Err(Fault::Unimplemented),
            _ => unreached(),
        }
    }
}

impl<M: Mmu> Hart for SimpleHart<M> {
    open spec fn inv(&self) -> bool {
        self.wf()
    }

    open spec fn gprs(&self) -> Seq<u64> {
        self@.gprs
    }

    open spec fn pc_value(&self) -> u64 {
        self@.pc
    }

    open spec fn csr_bank(&self) -> Seq<u64> {
        self@.csrs
    }

    open spec fn non_reg_state_eq(pre: SimpleHart<M>, post: SimpleHart<M>) -> bool {
        pre@.mmu == post@.mmu
    }

    open spec fn steps(pre: SimpleHart<M>, post: SimpleHart<M>, r: Result<(), Fault>) -> bool {
        step_rel(pre@, post@, r)
    }

    proof fn inv_facts(&self) {
    }

    /// Read one register; entry 32 is the program counter.
    fn reg(&self, reg: Reg) -> (v: u64) {
        let i = reg.index();
        self.registers[i]
    }

    /// Write one register; a write to `x0` is discarded here.
    fn set_reg(&mut self, reg: Reg, value: u64) {
        if reg != Reg::X0 {
            let i = reg.index();
            self.registers[i] = value;
            proof {
                if reg is Pc {
                    assert(self@.gprs =~= old(self)@.gprs);
                } else {
                    assert(self@.gprs =~= old(self)@.gprs.update(reg.sidx(), value));
                }
            }
        }
    }

    /// One fetch-decode-execute cycle.
    fn step(&mut self) -> (r: Result<(), Fault>) {
        let pc = self.reg(Reg::Pc);
        let word = match self.fetch_u32() {
            Ok(w) => w,
            Err(f) => {
                return Err(f);
            },
        };
        match Instruction::decode(word) {
            Ok(inst) => {
                proof {
                    lemma_decode_wf(word);
                }
                self.execute_instruction(pc, inst)
            },
            Err(e) => Err(Fault::DecodeFailed(e)),
        }
    }
}

} // verus!
