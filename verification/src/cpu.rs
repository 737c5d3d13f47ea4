//! Register names, the fault type a step can surface, and the `Hart`
//! trait through which a driver runs one instruction at a time.

use vstd::prelude::*;
use crate::instruction::Error;

verus! {

/// One of the 33 architectural register locations: the 32 general
/// purpose registers `x0..x31` and the program counter.
#[derive(Copy, Clone, PartialEq, Eq, Structural, Debug)]
pub enum Reg {
    X0,
    X1,
    X2,
    X3,
    X4,
    X5,
    X6,
    X7,
    X8,
    X9,
    X10,
    X11,
    X12,
    X13,
    X14,
    X15,
    X16,
    X17,
    X18,
    X19,
    X20,
    X21,
    X22,
    X23,
    X24,
    X25,
    X26,
    X27,
    X28,
    X29,
    X30,
    X31,
    /// The program counter.
    Pc,
}

impl Reg {
    /// The dense index of a register: 0..=31 for the general purpose
    /// registers, 32 for the program counter.
    pub open spec fn sidx(self) -> int {
        match self {
            Reg::X0 => 0,
            Reg::X1 => 1,
            Reg::X2 => 2,
            Reg::X3 => 3,
            Reg::X4 => 4,
            Reg::X5 => 5,
            Reg::X6 => 6,
            Reg::X7 => 7,
            Reg::X8 => 8,
            Reg::X9 => 9,
            Reg::X10 => 10,
            Reg::X11 => 11,
            Reg::X12 => 12,
            Reg::X13 => 13,
            Reg::X14 => 14,
            Reg::X15 => 15,
            Reg::X16 => 16,
            Reg::X17 => 17,
            Reg::X18 => 18,
            Reg::X19 => 19,
            Reg::X20 => 20,
            Reg::X21 => 21,
            Reg::X22 => 22,
            Reg::X23 => 23,
            Reg::X24 => 24,
            Reg::X25 => 25,
            Reg::X26 => 26,
            Reg::X27 => 27,
            Reg::X28 => 28,
            Reg::X29 => 29,
            Reg::X30 => 30,
            Reg::X31 => 31,
            Reg::Pc => 32,
        }
    }

    /// The register named by a dense index, inverse of `sidx`.
    pub open spec fn spec_from_bits(value: u32) -> Reg {
        match value {
            0u32 => Reg::X0,
            1u32 => Reg::X1,
            2u32 => Reg::X2,
            3u32 => Reg::X3,
            4u32 => Reg::X4,
            5u32 => Reg::X5,
            6u32 => Reg::X6,
            7u32 => Reg::X7,
            8u32 => Reg::X8,
            9u32 => Reg::X9,
            10u32 => Reg::X10,
            11u32 => Reg::X11,
            12u32 => Reg::X12,
            13u32 => Reg::X13,
            14u32 => Reg::X14,
            15u32 => Reg::X15,
            16u32 => Reg::X16,
            17u32 => Reg::X17,
            18u32 => Reg::X18,
            19u32 => Reg::X19,
            20u32 => Reg::X20,
            21u32 => Reg::X21,
            22u32 => Reg::X22,
            23u32 => Reg::X23,
            24u32 => Reg::X24,
            25u32 => Reg::X25,
            26u32 => Reg::X26,
            27u32 => Reg::X27,
            28u32 => Reg::X28,
            29u32 => Reg::X29,
            30u32 => Reg::X30,
            31u32 => Reg::X31,
            _ => Reg::Pc,
        }
    }

    /// The dense index of a register, usable as an array index.
    pub fn index(&self) -> (r: usize)
        ensures
            r == self.sidx(),
    {
        match self {
            Reg::X0 => 0,
            Reg::X1 => 1,
            Reg::X2 => 2,
            Reg::X3 => 3,
            Reg::X4 => 4,
            Reg::X5 => 5,
            Reg::X6 => 6,
            Reg::X7 => 7,
            Reg::X8 => 8,
            Reg::X9 => 9,
            Reg::X10 => 10,
            Reg::X11 => 11,
            Reg::X12 => 12,
            Reg::X13 => 13,
            Reg::X14 => 14,
            Reg::X15 => 15,
            Reg::X16 => 16,
            Reg::X17 => 17,
            Reg::X18 => 18,
            Reg::X19 => 19,
            Reg::X20 => 20,
            Reg::X21 => 21,
            Reg::X22 => 22,
            Reg::X23 => 23,
            Reg::X24 => 24,
            Reg::X25 => 25,
            Reg::X26 => 26,
            Reg::X27 => 27,
            Reg::X28 => 28,
            Reg::X29 => 29,
            Reg::X30 => 30,
            Reg::X31 => 31,
            Reg::Pc => 32,
        }
    }

    /// The register named by a dense index: 0..=31 name `x0..x31` and
    /// 32 names the program counter.
    pub fn from_bits(value: u32) -> (r: Reg)
        requires
            value <= 32,
        ensures
            r == Reg::spec_from_bits(value),
    {
        match value {
            0u32 => Reg::X0,
            1u32 => Reg::X1,
            2u32 => Reg::X2,
            3u32 => Reg::X3,
            4u32 => Reg::X4,
            5u32 => Reg::X5,
            6u32 => Reg::X6,
            7u32 => Reg::X7,
            8u32 => Reg::X8,
            9u32 => Reg::X9,
            10u32 => Reg::X10,
            11u32 => Reg::X11,
            12u32 => Reg::X12,
            13u32 => Reg::X13,
            14u32 => Reg::X14,
            15u32 => Reg::X15,
            16u32 => Reg::X16,
            17u32 => Reg::X17,
            18u32 => Reg::X18,
            19u32 => Reg::X19,
            20u32 => Reg::X20,
            21u32 => Reg::X21,
            22u32 => Reg::X22,
            23u32 => Reg::X23,
            24u32 => Reg::X24,
            25u32 => Reg::X25,
            26u32 => Reg::X26,
            27u32 => Reg::X27,
            28u32 => Reg::X28,
            29u32 => Reg::X29,
            30u32 => Reg::X30,
            31u32 => Reg::X31,
            _ => Reg::Pc,
        }
    }
}

/// Why a step could not complete: the fetched word did not decode, a
/// memory access fell outside the mapped range, or the instruction is
/// one this core leaves unimplemented.
#[derive(Copy, Clone, PartialEq, Eq, Structural, Debug)]
pub enum Fault {
    /// The fetched word did not decode.
    DecodeFailed(Error),
    /// A load, store or fetch faulted; carries the faulting address.
    MemAccess(u64),
    /// The instruction decoded but this core does not implement it.
    Unimplemented,
}

/// A hardware thread: 32 general registers, a program counter, a CSR
/// bank, and a step function that executes one instruction.
pub trait Hart: Sized {
    /// Well-formedness of the hart's state.
    spec fn inv(&self) -> bool;

    /// The 32 general purpose registers; entry 0 is pinned to zero.
    spec fn gprs(&self) -> Seq<u64>;

    /// The program counter.
    spec fn pc_value(&self) -> u64;

    /// The 4096-entry CSR bank.
    spec fn csr_bank(&self) -> Seq<u64>;

    /// True when the two harts agree on everything that is not a
    /// register: for a concrete hart this pins down the memory.
    spec fn non_reg_state_eq(pre: Self, post: Self) -> bool;

    /// The hart's one-instruction transition relation, which `step`
    /// is proved to follow.
    spec fn steps(pre: Self, post: Self, r: Result<(), Fault>) -> bool;

    /// Shape facts that every well-formed hart provides: 32 general
    /// registers, 4096 CSRs, and `x0` pinned to zero.
    proof fn inv_facts(&self)
        requires
            self.inv(),
        ensures
            self.gprs().len() == 32,
            self.csr_bank().len() == 4096,
            self.gprs()[0] == 0,
    ;

    /// Read a register. Reading `x0` yields 0 under the invariant.
    fn reg(&self, reg: Reg) -> (v: u64)
        requires
            self.inv(),
        ensures
            v == (if reg is Pc { self.pc_value() } else { self.gprs()[reg.sidx()] }),
    ;

    /// Write a register. A write to `x0` is a no-op that perturbs no
    /// other state.
    fn set_reg(&mut self, reg: Reg, value: u64)
        requires
            old(self).inv(),
        ensures
            final(self).inv(),
            final(self).gprs() == (if reg is X0 || reg is Pc {
                old(self).gprs()
            } else {
                old(self).gprs().update(reg.sidx(), value)
            }),
            final(self).pc_value() == (if reg is Pc { value } else { old(self).pc_value() }),
            final(self).csr_bank() == old(self).csr_bank(),
            Self::non_reg_state_eq(*old(self), *final(self)),
    ;

    /// Fetch, decode and execute one instruction.
    fn step(&mut self) -> (r: Result<(), Fault>)
        requires
            old(self).inv(),
        ensures
            final(self).inv(),
            Self::steps(*old(self), *final(self), r),
    ;
}

} // verus!
