use rv64emu::cpu::{Fault, Hart, Reg};
use rv64emu::instruction::{Error, Instruction};
use rv64emu::hart::SimpleHart;
use rv64emu::mem_backend::{TestingMemory, TestingMmu};

const BASE: u64 = 0x80000000;

/// A hart over a small guest memory holding the given words at the
/// guest base, with the program counter pointing at the first one.
fn hart_with_program(words: &[u32]) -> SimpleHart<TestingMmu> {
    let mut memory = TestingMemory::new(4096);
    for (i, w) in words.iter().enumerate() {
        memory.write_u32(i * 4, *w);
    }
    let mmu = TestingMmu::new(memory);
    let mut hart = SimpleHart::new(mmu);
    hart.set_reg(Reg::Pc, BASE);
    hart
}

#[test]
fn addi_sign_extends() {
    // addi x5, x5, -1 with x5 = 0
    let mut hart = hart_with_program(&[0xFFF28293]);
    hart.set_reg(Reg::X5, 0);
    hart.step().unwrap();
    assert_eq!(hart.reg(Reg::X5), 0xFFFF_FFFF_FFFF_FFFF);
    assert_eq!(hart.reg(Reg::Pc), BASE + 4);
}

#[test]
fn writes_to_x0_are_discarded() {
    // addi x0, x0, 1
    let mut hart = hart_with_program(&[0x00100013]);
    hart.step().unwrap();
    assert_eq!(hart.reg(Reg::X0), 0);
    assert_eq!(hart.reg(Reg::Pc), BASE + 4);
}

#[test]
fn x0_stays_zero_under_direct_writes() {
    let mut hart = hart_with_program(&[]);
    hart.set_reg(Reg::X0, 0xDEAD);
    hart.set_reg(Reg::X1, 7);
    hart.set_reg(Reg::X0, 1);
    assert_eq!(hart.reg(Reg::X0), 0);
    assert_eq!(hart.reg(Reg::X1), 7);
}

#[test]
fn jal_links_and_jumps() {
    // jal x1, +8 fetched from 0x1000
    let inst = Instruction::decode(0x008000EF).unwrap();
    let mut hart = hart_with_program(&[]);
    hart.set_reg(Reg::Pc, 0x1004);  // the fetch already advanced past 0x1000
    hart.execute_instruction(0x1000, inst).unwrap();
    assert_eq!(hart.reg(Reg::X1), 0x1004);
    assert_eq!(hart.reg(Reg::Pc), 0x1008);
}

#[test]
fn jalr_links_and_jumps() {
    // jalr x1, 16(x2)
    let inst = Instruction::decode(0x010100E7).unwrap();
    let mut hart = hart_with_program(&[]);
    hart.set_reg(Reg::Pc, 0x1004);
    hart.set_reg(Reg::X2, 0x2000);
    hart.execute_instruction(0x1000, inst).unwrap();
    assert_eq!(hart.reg(Reg::X1), 0x1004);
    assert_eq!(hart.reg(Reg::Pc), 0x2010);
}

#[test]
fn lui_addi_compose() {
    // lui x5, 0x12345 ; addi x5, x5, 0x678
    let mut hart = hart_with_program(&[0x123452B7, 0x67828293]);
    hart.step().unwrap();
    hart.step().unwrap();
    assert_eq!(hart.reg(Reg::X5), 0x1234_5678);
    assert_eq!(hart.reg(Reg::Pc), BASE + 8);
}

#[test]
fn lui_sign_extends_negative_upper() {
    // lui x5, 0x80000
    let mut hart = hart_with_program(&[0x800002B7]);
    hart.step().unwrap();
    assert_eq!(hart.reg(Reg::X5), 0xFFFF_FFFF_8000_0000);
}

#[test]
fn srai_shifts_arithmetically() {
    // srai x5, x5, 4 with x5 = 0xFFFF_FFFF_FFFF_FF00
    let mut hart = hart_with_program(&[0x4042D293]);
    hart.set_reg(Reg::X5, 0xFFFF_FFFF_FFFF_FF00);
    hart.step().unwrap();
    assert_eq!(hart.reg(Reg::X5), 0xFFFF_FFFF_FFFF_FFF0);
}

#[test]
fn srli_shifts_logically() {
    // srli x5, x5, 1
    let mut hart = hart_with_program(&[0x0012D293]);
    hart.set_reg(Reg::X5, 0x8000_0000_0000_0000);
    hart.step().unwrap();
    assert_eq!(hart.reg(Reg::X5), 0x4000_0000_0000_0000);
}

#[test]
fn branch_not_taken_falls_through() {
    // beq x5, x6, +8 with x5 = 1, x6 = 2, fetched from 0x1000
    let inst = Instruction::decode(0x00628463).unwrap();
    let mut hart = hart_with_program(&[]);
    hart.set_reg(Reg::Pc, 0x1004);
    hart.set_reg(Reg::X5, 1);
    hart.set_reg(Reg::X6, 2);
    hart.execute_instruction(0x1000, inst).unwrap();
    assert_eq!(hart.reg(Reg::Pc), 0x1004);
}

#[test]
fn branch_taken_jumps() {
    // beq x5, x6, +8 with equal operands
    let mut hart = hart_with_program(&[0x00628463]);
    hart.set_reg(Reg::X5, 3);
    hart.set_reg(Reg::X6, 3);
    hart.step().unwrap();
    assert_eq!(hart.reg(Reg::Pc), BASE + 8);
}

#[test]
fn blt_compares_signed() {
    // blt x5, x6, +8 with x5 = -1, x6 = 1
    let mut hart = hart_with_program(&[0x0062C463]);
    hart.set_reg(Reg::X5, 0xFFFF_FFFF_FFFF_FFFF);
    hart.set_reg(Reg::X6, 1);
    hart.step().unwrap();
    assert_eq!(hart.reg(Reg::Pc), BASE + 8);
}

#[test]
fn bltu_compares_unsigned() {
    // bltu x5, x6, +8 with x5 = u64::MAX, x6 = 1: not taken
    let mut hart = hart_with_program(&[0x0062E463]);
    hart.set_reg(Reg::X5, 0xFFFF_FFFF_FFFF_FFFF);
    hart.set_reg(Reg::X6, 1);
    hart.step().unwrap();
    assert_eq!(hart.reg(Reg::Pc), BASE + 4);
}

#[test]
fn store_load_round_trip() {
    // sd x6, 8(x5) ; ld x7, 8(x5)
    let mut hart = hart_with_program(&[0x0062B423, 0x0082B383]);
    hart.set_reg(Reg::X5, BASE + 0x100);
    hart.set_reg(Reg::X6, 0x0123_4567_89AB_CDEF);
    hart.step().unwrap();
    hart.step().unwrap();
    assert_eq!(hart.reg(Reg::X7), 0x0123_4567_89AB_CDEF);
}

#[test]
fn stores_are_little_endian() {
    // sw x6, 0(x5)
    let mut hart = hart_with_program(&[0x0062A023]);
    hart.set_reg(Reg::X5, BASE + 0x200);
    hart.set_reg(Reg::X6, 0x1122_3344);
    hart.step().unwrap();
    assert_eq!(hart.mmu.memory.read_u8(0x200), 0x44);
    assert_eq!(hart.mmu.memory.read_u8(0x201), 0x33);
    assert_eq!(hart.mmu.memory.read_u8(0x202), 0x22);
    assert_eq!(hart.mmu.memory.read_u8(0x203), 0x11);
}

#[test]
fn sb_writes_one_byte() {
    // sb x6, 0(x5)
    let mut hart = hart_with_program(&[0x00628023]);
    hart.set_reg(Reg::X5, BASE + 0x300);
    hart.set_reg(Reg::X6, 0xABCD);
    hart.step().unwrap();
    assert_eq!(hart.mmu.memory.read_u8(0x300), 0xCD);
    assert_eq!(hart.mmu.memory.read_u8(0x301), 0x00);
}

#[test]
fn unaligned_access_succeeds() {
    // sd x6, 1(x5) ; ld x7, 1(x5) at an odd address
    let mut hart = hart_with_program(&[0x0062B0A3, 0x0012B383]);
    hart.set_reg(Reg::X5, BASE + 0x400);
    hart.set_reg(Reg::X6, 0xDEAD_BEEF_CAFE_F00D);
    hart.step().unwrap();
    hart.step().unwrap();
    assert_eq!(hart.reg(Reg::X7), 0xDEAD_BEEF_CAFE_F00D);
}

#[test]
fn lb_sign_extends_lbu_does_not() {
    // sb x6, 0(x5) ; lb x7, 0(x5) ; lbu x8, 0(x5)
    let mut hart = hart_with_program(&[0x00628023, 0x00028383, 0x0002C403]);
    hart.set_reg(Reg::X5, BASE + 0x500);
    hart.set_reg(Reg::X6, 0x80);
    hart.step().unwrap();
    hart.step().unwrap();
    hart.step().unwrap();
    assert_eq!(hart.reg(Reg::X7), 0xFFFF_FFFF_FFFF_FF80);
    assert_eq!(hart.reg(Reg::X8), 0x80);
}

#[test]
fn addiw_wraps_and_sign_extends() {
    // addiw x5, x5, 1 with x5 = 0x7FFF_FFFF: wraps to i32 minimum
    let mut hart = hart_with_program(&[0x0012829B]);
    hart.set_reg(Reg::X5, 0x7FFF_FFFF);
    hart.step().unwrap();
    assert_eq!(hart.reg(Reg::X5), 0xFFFF_FFFF_8000_0000);
}

#[test]
fn sllw_uses_low_five_shift_bits() {
    // sllw x5, x6, x7 with x7 = 33: shifts by 1 and sign-extends
    let mut hart = hart_with_program(&[0x007312BB]);
    hart.set_reg(Reg::X6, 0x4000_0001);
    hart.set_reg(Reg::X7, 33);
    hart.step().unwrap();
    assert_eq!(hart.reg(Reg::X5), 0xFFFF_FFFF_8000_0002);
}

#[test]
fn add_wraps_modulo_two_to_the_64() {
    // add x5, x6, x7
    let mut hart = hart_with_program(&[0x007302B3]);
    hart.set_reg(Reg::X6, 0xFFFF_FFFF_FFFF_FFFF);
    hart.set_reg(Reg::X7, 2);
    hart.step().unwrap();
    assert_eq!(hart.reg(Reg::X5), 1);
}

#[test]
fn slt_and_sltu_disagree_on_negative_operands() {
    // slt x5, x6, x7 ; sltu x8, x6, x7 with x6 = -1, x7 = 1
    let mut hart = hart_with_program(&[0x007322B3, 0x00733433]);
    hart.set_reg(Reg::X6, 0xFFFF_FFFF_FFFF_FFFF);
    hart.set_reg(Reg::X7, 1);
    hart.step().unwrap();
    hart.step().unwrap();
    assert_eq!(hart.reg(Reg::X5), 1);
    assert_eq!(hart.reg(Reg::X8), 0);
}

#[test]
fn ecall_jumps_to_mtvec() {
    // csrrw x0, 0x305, x6 (set mtvec) ; ecall
    let mut hart = hart_with_program(&[0x30531073, 0x00000073]);
    hart.set_reg(Reg::X6, BASE + 0x800);
    hart.step().unwrap();
    hart.step().unwrap();
    assert_eq!(hart.reg(Reg::Pc), BASE + 0x800);
}

#[test]
fn mret_returns_to_mepc_and_writes_mcause() {
    // csrrw x0, 0x341, x6 (set mepc) ; mret ; then read mcause
    let mut hart = hart_with_program(&[0x34131073, 0x30200073]);
    hart.set_reg(Reg::X6, BASE + 0x40);
    hart.step().unwrap();
    hart.step().unwrap();
    assert_eq!(hart.reg(Reg::Pc), BASE + 0x40);
    assert_eq!(hart.read_csr(0x342), 11);
}

#[test]
fn csrrw_swaps_old_value_into_rd() {
    // csrrw x5, 0x305, x6 twice
    let mut hart = hart_with_program(&[0x305312F3, 0x305312F3]);
    hart.set_reg(Reg::X6, 0x1111);
    hart.step().unwrap();
    assert_eq!(hart.reg(Reg::X5), 0);
    assert_eq!(hart.read_csr(0x305), 0x1111);
    hart.set_reg(Reg::X6, 0x2222);
    hart.step().unwrap();
    assert_eq!(hart.reg(Reg::X5), 0x1111);
    assert_eq!(hart.read_csr(0x305), 0x2222);
}

#[test]
fn csrrs_with_x0_reads_without_writing() {
    // csrrs x5, 0x341, x0
    let mut hart = hart_with_program(&[0x341022F3]);
    hart.write_csr(0x341, 0xABCD);
    hart.step().unwrap();
    assert_eq!(hart.reg(Reg::X5), 0xABCD);
    assert_eq!(hart.read_csr(0x341), 0xABCD);
}

#[test]
fn csrrs_sets_bits() {
    // csrrs x5, 0x341, x6
    let mut hart = hart_with_program(&[0x341322F3]);
    hart.write_csr(0x341, 0xF0);
    hart.set_reg(Reg::X6, 0x0F);
    hart.step().unwrap();
    assert_eq!(hart.reg(Reg::X5), 0xF0);
    assert_eq!(hart.read_csr(0x341), 0xFF);
}

#[test]
fn csrrwi_writes_immediate_and_skips_x0_read() {
    // csrrwi x0, 0x342, 7: the CSR write happens, the read is dropped
    let mut hart = hart_with_program(&[0x3423D073]);
    hart.write_csr(0x342, 0x55);
    hart.step().unwrap();
    assert_eq!(hart.read_csr(0x342), 7);
    assert_eq!(hart.reg(Reg::X0), 0);
}

#[test]
fn ebreak_is_unimplemented() {
    let mut hart = hart_with_program(&[0x00100073]);
    assert_eq!(hart.step(), Err(Fault::Unimplemented));
}

#[test]
fn csrrc_is_unimplemented() {
    // csrrc x5, 0x341, x6
    let mut hart = hart_with_program(&[0x341332F3]);
    assert_eq!(hart.step(), Err(Fault::Unimplemented));
}

#[test]
fn undecodable_word_faults() {
    let mut hart = hart_with_program(&[0x00000000]);
    assert_eq!(hart.step(), Err(Fault::DecodeFailed(Error::UnknownOpcode(0))));
}

#[test]
fn fetch_outside_mapped_range_faults() {
    let mut hart = hart_with_program(&[]);
    hart.set_reg(Reg::Pc, 0x1000);
    assert_eq!(hart.step(), Err(Fault::MemAccess(0x1000)));
}

#[test]
fn load_outside_mapped_range_faults() {
    // ld x6, 16(x5) with a base far outside guest memory
    let mut hart = hart_with_program(&[0x0102B303]);
    hart.set_reg(Reg::X5, 0x4000);
    assert_eq!(hart.step(), Err(Fault::MemAccess(0x4010)));
}

#[test]
fn fence_is_a_no_op() {
    let mut hart = hart_with_program(&[0x0000000F]);
    hart.set_reg(Reg::X5, 99);
    hart.step().unwrap();
    assert_eq!(hart.reg(Reg::X5), 99);
    assert_eq!(hart.reg(Reg::Pc), BASE + 4);
}

#[test]
fn fetch_u32_reads_and_advances() {
    let mut hart = hart_with_program(&[0x00100013]);
    let w = hart.fetch_u32().unwrap();
    assert_eq!(w, 0x00100013);
    assert_eq!(hart.reg(Reg::Pc), BASE + 4);
}

#[test]
fn console_store_reaches_the_sink() {
    // sb x6, 0(x5) with x5 = 0x1000: the console sink
    let mut hart = hart_with_program(&[0x00628023]);
    hart.set_reg(Reg::X5, 0x1000);
    hart.set_reg(Reg::X6, 'A' as u64);
    hart.step().unwrap();
    let out = hart.mmu.take_output();
    assert_eq!(out, vec![b'A']);
    assert_eq!(hart.mmu.take_output(), Vec::<u8>::new());
}

#[test]
fn a_fresh_hart_is_all_zero() {
    let mut hart = hart_with_program(&[]);
    hart.set_reg(Reg::Pc, 0);
    for i in 0..33u32 {
        assert_eq!(hart.reg(Reg::from_bits(i)), 0);
    }
    assert_eq!(hart.read_csr(0), 0);
    assert_eq!(hart.read_csr(4095), 0);
}

#[test]
fn csr_bank_is_plain_storage() {
    let mut hart = hart_with_program(&[]);
    hart.write_csr(0x7FF, 0x1234_5678_9ABC_DEF0);
    assert_eq!(hart.read_csr(0x7FF), 0x1234_5678_9ABC_DEF0);
    assert_eq!(hart.read_csr(0x7FE), 0);
}

#[test]
fn sret_is_unimplemented() {
    let mut hart = hart_with_program(&[0x10200073]);
    assert_eq!(hart.step(), Err(Fault::Unimplemented));
}

#[test]
fn step_advances_pc_by_four_for_plain_instructions() {
    // xor x5, x6, x7 ; andi x8, x5, 0xFF ; fence — none transfers control
    let mut hart = hart_with_program(&[0x007342B3, 0x0FF2F413, 0x0000000F]);
    for k in 1..=3u64 {
        hart.step().unwrap();
        assert_eq!(hart.reg(Reg::Pc), BASE + 4 * k);
    }
}

#[test]
fn jalr_clears_the_low_target_bit() {
    // jalr x1, 17(x2) with x2 = 0x2000: the raw target 0x2011 is
    // masked to 0x2010
    let inst = Instruction::decode(0x011100E7).unwrap();
    let mut hart = hart_with_program(&[]);
    hart.set_reg(Reg::Pc, 0x1004);
    hart.set_reg(Reg::X2, 0x2000);
    hart.execute_instruction(0x1000, inst).unwrap();
    assert_eq!(hart.reg(Reg::X1), 0x1004);
    assert_eq!(hart.reg(Reg::Pc), 0x2010);
}

#[test]
fn csrrw_with_aliased_source_writes_the_old_register_value() {
    // csrrw x5, 0x305, x5: the CSR receives the old x5 even though x5
    // is also the destination
    let mut hart = hart_with_program(&[0x305292F3]);
    hart.write_csr(0x305, 0x55);
    hart.set_reg(Reg::X5, 0xAA);
    hart.step().unwrap();
    assert_eq!(hart.reg(Reg::X5), 0x55);
    assert_eq!(hart.read_csr(0x305), 0xAA);
}

#[test]
fn csrrs_with_aliased_source_sets_the_old_register_bits() {
    // csrrs x5, 0x305, x5: the CSR receives old | old(x5)
    let mut hart = hart_with_program(&[0x3052A2F3]);
    hart.write_csr(0x305, 0xF0);
    hart.set_reg(Reg::X5, 0x0F);
    hart.step().unwrap();
    assert_eq!(hart.reg(Reg::X5), 0xF0);
    assert_eq!(hart.read_csr(0x305), 0xFF);
}
