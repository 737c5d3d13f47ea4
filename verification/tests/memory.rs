use rv64emu::memory::{MemFault, Mmu, TypeWidth};
use rv64emu::mem_backend::{TestingMemory, TestingMmu, CONSOLE_ADDRESS, MEMORY_OFFSET};

#[test]
fn buffer_starts_zeroed() {
    let memory = TestingMemory::new(64);
    assert_eq!(memory.len(), 64);
    for i in 0..64 {
        assert_eq!(memory.read_u8(i), 0);
    }
}

#[test]
fn buffer_words_are_little_endian() {
    let mut memory = TestingMemory::new(64);
    memory.write_u32(0, 0x11223344);
    assert_eq!(memory.read_u8(0), 0x44);
    assert_eq!(memory.read_u8(1), 0x33);
    assert_eq!(memory.read_u8(2), 0x22);
    assert_eq!(memory.read_u8(3), 0x11);
    assert_eq!(memory.read_u16(0), 0x3344);
    assert_eq!(memory.read_u32(0), 0x11223344);

    memory.write_u64(8, 0x0102030405060708);
    assert_eq!(memory.read_u8(8), 0x08);
    assert_eq!(memory.read_u8(15), 0x01);
    assert_eq!(memory.read_u64(8), 0x0102030405060708);

    memory.write_u16(20, 0xBEEF);
    assert_eq!(memory.read_u8(20), 0xEF);
    assert_eq!(memory.read_u8(21), 0xBE);
}

#[test]
fn mmu_maps_the_guest_base() {
    let memory = TestingMemory::new(256);
    let mut mmu = TestingMmu::new(memory);
    mmu.write(MEMORY_OFFSET + 16, 0xCAFEBABE, TypeWidth::Word).unwrap();
    assert_eq!(mmu.memory.read_u32(16), 0xCAFEBABE);
    assert_eq!(mmu.read(MEMORY_OFFSET + 16, TypeWidth::Word).unwrap(), 0xCAFEBABE);
    assert_eq!(mmu.read(MEMORY_OFFSET + 16, TypeWidth::Byte).unwrap(), 0xBE);
}

#[test]
fn mmu_write_truncates_to_width() {
    let memory = TestingMemory::new(64);
    let mut mmu = TestingMmu::new(memory);
    mmu.write(MEMORY_OFFSET, 0x1122334455667788, TypeWidth::HalfWord).unwrap();
    assert_eq!(mmu.read(MEMORY_OFFSET, TypeWidth::DoubleWord).unwrap(), 0x7788);
}

#[test]
fn mmu_rejects_unmapped_addresses() {
    let memory = TestingMemory::new(64);
    let mut mmu = TestingMmu::new(memory);
    assert_eq!(mmu.read(0, TypeWidth::Byte), Err(MemFault { addr: 0 }));
    assert_eq!(
        mmu.read(MEMORY_OFFSET - 1, TypeWidth::Byte),
        Err(MemFault { addr: MEMORY_OFFSET - 1 })
    );
    assert_eq!(
        mmu.read(MEMORY_OFFSET + 64, TypeWidth::Byte),
        Err(MemFault { addr: MEMORY_OFFSET + 64 })
    );
    // A wide access that would run past the end is rejected whole.
    assert_eq!(
        mmu.read(MEMORY_OFFSET + 61, TypeWidth::Word),
        Err(MemFault { addr: MEMORY_OFFSET + 61 })
    );
    assert_eq!(
        mmu.write(MEMORY_OFFSET + 61, 0, TypeWidth::Word),
        Err(MemFault { addr: MEMORY_OFFSET + 61 })
    );
}

#[test]
fn mmu_trait_helpers_match_widths() {
    let memory = TestingMemory::new(64);
    let mut mmu = TestingMmu::new(memory);
    mmu.write_u64(MEMORY_OFFSET, 0xA1B2C3D4E5F60718).unwrap();
    assert_eq!(mmu.read_u8(MEMORY_OFFSET).unwrap(), 0x18);
    assert_eq!(mmu.read_u16(MEMORY_OFFSET).unwrap(), 0x0718);
    assert_eq!(mmu.read_u32(MEMORY_OFFSET).unwrap(), 0xE5F60718);
    assert_eq!(mmu.read_u64(MEMORY_OFFSET).unwrap(), 0xA1B2C3D4E5F60718);
    mmu.write_u8(MEMORY_OFFSET + 1, 0xFF).unwrap();
    assert_eq!(mmu.read_u16(MEMORY_OFFSET).unwrap(), 0xFF18);
}

#[test]
fn console_collects_bytes_in_order() {
    let memory = TestingMemory::new(64);
    let mut mmu = TestingMmu::new(memory);
    mmu.write(CONSOLE_ADDRESS, 'h' as u64, TypeWidth::Byte).unwrap();
    mmu.write(CONSOLE_ADDRESS, 'i' as u64, TypeWidth::Byte).unwrap();
    // A wide write to the sink still contributes its low byte.
    mmu.write(CONSOLE_ADDRESS, 0x1121, TypeWidth::Word).unwrap();
    assert_eq!(mmu.take_output(), vec![b'h', b'i', 0x21]);
    assert_eq!(mmu.take_output(), Vec::<u8>::new());
    // The mapped memory was not touched by console writes.
    assert_eq!(mmu.memory.read_u64(0), 0);
}
