use rv64emu::elf::{Class, Data, Elf, ElfError, Machine, OsAbi, ProgramHeader, ProgramHeaderTyp, Typ};
use rv64emu::harness::test_status;

fn put_u16(image: &mut Vec<u8>, off: usize, v: u16) {
    image[off] = v as u8;
    image[off + 1] = (v >> 8) as u8;
}

fn put_u32(image: &mut Vec<u8>, off: usize, v: u32) {
    for i in 0..4 {
        image[off + i] = (v >> (8 * i)) as u8;
    }
}

fn put_u64(image: &mut Vec<u8>, off: usize, v: u64) {
    for i in 0..8 {
        image[off + i] = (v >> (8 * i)) as u8;
    }
}

/// A minimal ELF64 image: the 64-byte header, one program header
/// entry at offset 64, and four bytes of segment data at offset 120.
fn sample_image() -> Vec<u8> {
    let mut image = vec![0u8; 124];
    image[0] = 0x7f;
    image[1] = b'E';
    image[2] = b'L';
    image[3] = b'F';
    image[4] = 2;  // ELF64
    image[5] = 1;  // little-endian
    image[7] = 0;  // System V
    image[8] = 3;  // ABI version
    put_u16(&mut image, 16, 2);  // executable
    put_u16(&mut image, 18, 0xf3);  // RISC-V
    put_u64(&mut image, 24, 0x8000_0000);  // entry
    put_u64(&mut image, 32, 64);  // program header table offset
    put_u64(&mut image, 40, 0);  // section header table offset
    put_u16(&mut image, 54, 56);  // program header entry size
    put_u16(&mut image, 56, 1);  // one program header entry
    put_u16(&mut image, 58, 64);  // section header entry size
    put_u16(&mut image, 60, 0);  // no section header entries
    put_u16(&mut image, 62, 0);  // string table index

    // The program header entry.
    put_u32(&mut image, 64, 1);  // PT_LOAD
    put_u32(&mut image, 68, 5);  // flags: R+X
    put_u64(&mut image, 72, 120);  // file offset of the segment bytes
    put_u64(&mut image, 80, 0x8000_0000);  // vaddr
    put_u64(&mut image, 88, 0x8000_0000);  // paddr
    put_u64(&mut image, 96, 4);  // file size
    put_u64(&mut image, 104, 8);  // memory size
    put_u64(&mut image, 112, 0x1000);  // alignment

    // The segment's bytes.
    image[120] = 0xDE;
    image[121] = 0xAD;
    image[122] = 0xBE;
    image[123] = 0xEF;
    image
}

#[test]
fn parse_reads_the_header() {
    let image = sample_image();
    let elf = Elf::parse(&image).unwrap();
    assert_eq!(elf.class, Class::Elf64);
    assert_eq!(elf.data, Data::LittleEndian);
    assert_eq!(elf.os_abi, OsAbi::SystemV);
    assert_eq!(elf.os_abi_version, 3);
    assert_eq!(elf.typ, Typ::Executable);
    assert_eq!(elf.machine, Machine::RiscV);
    assert_eq!(elf.entry(), 0x8000_0000);
    assert_eq!(elf.program_header.offset, 64);
    assert_eq!(elf.program_header.entry_size, 56);
    assert_eq!(elf.program_header.num_entries, 1);
    assert_eq!(elf.section_header.entry_size, 64);
    assert_eq!(elf.section_header.num_entries, 0);
}

#[test]
fn parse_rejects_bad_magic() {
    let mut image = sample_image();
    image[1] = b'X';
    assert!(matches!(Elf::parse(&image), Err(ElfError::InvalidMagic)));
}

#[test]
fn parse_rejects_bad_class_and_data() {
    let mut image = sample_image();
    image[4] = 9;
    assert!(matches!(Elf::parse(&image), Err(ElfError::InvalidClass(9))));
    let mut image = sample_image();
    image[5] = 7;
    assert!(matches!(Elf::parse(&image), Err(ElfError::InvalidData(7))));
}

#[test]
fn program_header_entry_parses() {
    let image = sample_image();
    let elf = Elf::parse(&image).unwrap();
    let ph = elf.program_header(0).unwrap();
    assert_eq!(ph.typ(), ProgramHeaderTyp::Load);
    assert_eq!(ph.flags, 5);
    assert_eq!(ph.offset, 120);
    assert_eq!(ph.vaddr(), 0x8000_0000);
    assert_eq!(ph.paddr, 0x8000_0000);
    assert_eq!(ph.file_size(), 4);
    assert_eq!(ph.memory_size, 8);
    assert_eq!(ph.alignment, 0x1000);
}

#[test]
fn program_header_out_of_table_fails() {
    let image = sample_image();
    let elf = Elf::parse(&image).unwrap();
    assert!(matches!(
        elf.program_header(2),
        Err(ElfError::InvalidProgramHeaderBufferSize)
    ));
}

#[test]
fn program_header_iter_walks_the_table() {
    let image = sample_image();
    let elf = Elf::parse(&image).unwrap();
    let mut iter = elf.program_header_iter();
    let first = iter.next().unwrap();
    assert_eq!(first.typ(), ProgramHeaderTyp::Load);
    assert!(iter.next().is_none());
}

#[test]
fn program_header_data_extracts_segment_bytes() {
    let image = sample_image();
    let elf = Elf::parse(&image).unwrap();
    let ph = elf.program_header(0).unwrap();
    let data = elf.program_header_data(&ph).unwrap();
    assert_eq!(data, vec![0xDE, 0xAD, 0xBE, 0xEF]);
}

#[test]
fn program_header_data_rejects_truncated_images() {
    let image = sample_image();
    let elf = Elf::parse(&image).unwrap();
    let mut ph = elf.program_header(0).unwrap();
    ph.file_size = 1000;
    assert!(elf.program_header_data(&ph).is_none());
}

#[test]
fn short_program_header_buffer_is_rejected() {
    let bytes = [0u8; 55];
    assert!(matches!(
        ProgramHeader::parse(&bytes),
        Err(ElfError::InvalidProgramHeaderBufferSize)
    ));
}

#[test]
fn parse_field_enums_cover_reserved_ranges() {
    assert_eq!(Typ::parse(0), Typ::NoType);
    assert_eq!(Typ::parse(0xfe10), Typ::OperatingSystem(0xfe10));
    assert_eq!(Typ::parse(0xff10), Typ::Processor(0xff10));
    assert_eq!(Typ::parse(0x1234), Typ::Unknown(0x1234));
    assert_eq!(Machine::parse(0x3e), Machine::Amd64);
    assert_eq!(Machine::parse(0x99), Machine::Unknown(0x99));
    assert_eq!(OsAbi::parse(0x42), OsAbi::Unknown(0x42));
    assert_eq!(ProgramHeaderTyp::parse(0x60000001), ProgramHeaderTyp::OperatingSystem(0x60000001));
    assert_eq!(ProgramHeaderTyp::parse(0x70000001), ProgramHeaderTyp::Processor(0x70000001));
    assert_eq!(ProgramHeaderTyp::parse(0x12345678), ProgramHeaderTyp::Unknown(0x12345678));
}

#[test]
fn test_status_classifies_the_packed_word() {
    assert_eq!(test_status(0), None);
    assert_eq!(test_status(4), None);
    assert_eq!(test_status(1), Some(Ok(())));
    assert_eq!(test_status(11), Some(Err(5)));
    assert_eq!(test_status((42 << 1) | 1), Some(Err(42)));
}
