//! A little-endian ELF64 reader: just enough of the format to find the
//! entry point and walk the program headers of a statically linked
//! RISC-V executable so its loadable segments can be copied into guest
//! memory.

use vstd::prelude::*;
use crate::bits::{le16, le32, le64};

verus! {

/// Why a byte buffer was rejected as an ELF image.
#[derive(Copy, Clone, PartialEq, Eq, Structural, Debug)]
pub enum ElfError {
    /// The four magic bytes are not `0x7f 'E' 'L' 'F'`.
    InvalidMagic,
    /// The class byte names neither a 32-bit nor a 64-bit image.
    InvalidClass(u8),
    /// The data byte names neither little- nor big-endian.
    InvalidData(u8),
    /// The string table index does not fit the host's word.
    StringTableIndexConvertionError,
    /// The program header offset does not fit the host's word.
    ProgramHeaderOffsetConvertionError,
    /// The program header entry size does not fit the host's word.
    ProgramHeaderEntrySizeConvertionError,
    /// The number of program header entries does not fit the host's word.
    NumProgramHeaderEntriesConvertionError,
    /// The section header offset does not fit the host's word.
    SectionHeaderOffsetConvertionError,
    /// The section header entry size does not fit the host's word.
    SectionHeaderEntrySizeConvertionError,
    /// The number of section header entries does not fit the host's word.
    NumSectionHeaderEntriesConvertionError,
    /// The buffer does not hold a whole program header entry.
    InvalidProgramHeaderBufferSize,
}

/// The image's word width.
#[derive(Copy, Clone, PartialEq, Eq, Structural, Debug)]
pub enum Class {
    Elf32,
    Elf64,
}

impl Class {
    /// The class a header byte names.
    pub open spec fn spec_parse(value: u8) -> Result<Class, ElfError> {
        if value == 1 {
            Ok(Class::Elf32)
        } else if value == 2 {
            Ok(Class::Elf64)
        } else {
            Err(ElfError::InvalidClass(value))
        }
    }

    /// Parse the class byte at offset 4.
    pub fn parse(value: u8) -> (r: Result<Class, ElfError>)
        ensures
            r == Class::spec_parse(value),
    {
        match value {
            1u8 => Ok(Class::Elf32),
            2u8 => Ok(Class::Elf64),
            _ => Err(ElfError::InvalidClass(value)),
        }
    }
}

/// The image's byte order.
#[derive(Copy, Clone, PartialEq, Eq, Structural, Debug)]
pub enum Data {
    LittleEndian,
    BigEndian,
}

impl Data {
    /// The byte order a header byte names.
    pub open spec fn spec_parse(value: u8) -> Result<Data, ElfError> {
        if value == 1 {
            Ok(Data::LittleEndian)
        } else if value == 2 {
            Ok(Data::BigEndian)
        } else {
            Err(ElfError::InvalidData(value))
        }
    }

    /// Parse the data byte at offset 5.
    pub fn parse(value: u8) -> (r: Result<Data, ElfError>)
        ensures
            r == Data::spec_parse(value),
    {
        match value {
            1u8 => Ok(Data::LittleEndian),
            2u8 => Ok(Data::BigEndian),
            _ => Err(ElfError::InvalidData(value)),
        }
    }
}

/// The ABI the image was built for.
#[derive(Copy, Clone, PartialEq, Eq, Structural, Debug)]
pub enum OsAbi {
    SystemV,
    Unknown(u8),
}

impl OsAbi {
    /// The ABI a header byte names; every value is accepted.
    pub open spec fn spec_parse(value: u8) -> OsAbi {
        if value == 0 {
            OsAbi::SystemV
        } else {
            OsAbi::Unknown(value)
        }
    }

    /// Parse the OS/ABI byte at offset 7.
    pub fn parse(value: u8) -> (r: OsAbi)
        ensures
            r == OsAbi::spec_parse(value),
    {
        match value {
            0u8 => OsAbi::SystemV,
            _ => OsAbi::Unknown(value),
        }
    }
}

/// The object file's kind.
#[derive(Copy, Clone, PartialEq, Eq, Structural, Debug)]
pub enum Typ {
    /// No file type
    NoType,
    /// Relocatable file
    Relocatable,
    /// Executable file
    Executable,
    /// Shared object
    Shared,
    /// Core file
    Core,
    /// Reserved inclusive range, operating system specific
    OperatingSystem(u16),
    /// Reserved inclusive range, processor specific
    Processor(u16),
    Unknown(u16),
}

impl Typ {
    /// The kind a 16-bit field names; every value is accepted.
    pub open spec fn spec_parse(value: u16) -> Typ {
        if value == 0x00 {
            Typ::NoType
        } else if value == 0x01 {
            Typ::Relocatable
        } else if value == 0x02 {
            Typ::Executable
        } else if value == 0x03 {
            Typ::Shared
        } else if value == 0x04 {
            Typ::Core
        } else if 0xfe00 <= value && value <= 0xfeff {
            Typ::OperatingSystem(value)
        } else if 0xff00 <= value {
            Typ::Processor(value)
        } else {
            Typ::Unknown(value)
        }
    }

    /// Parse the type field at offset 16.
    pub fn parse(value: u16) -> (r: Typ)
        ensures
            r == Typ::spec_parse(value),
    {
        if value == 0x00 {
            Typ::NoType
        } else if value == 0x01 {
            Typ::Relocatable
        } else if value == 0x02 {
            Typ::Executable
        } else if value == 0x03 {
            Typ::Shared
        } else if value == 0x04 {
            Typ::Core
        } else if 0xfe00 <= value && value <= 0xfeff {
            Typ::OperatingSystem(value)
        } else if 0xff00 <= value {
            Typ::Processor(value)
        } else {
            Typ::Unknown(value)
        }
    }
}

/// The instruction set the image targets.
#[derive(Copy, Clone, PartialEq, Eq, Structural, Debug)]
pub enum Machine {
    X86,
    Amd64,
    RiscV,
    Unknown(u16),
}

impl Machine {
    /// The machine a 16-bit field names; every value is accepted.
    pub open spec fn spec_parse(value: u16) -> Machine {
        if value == 0x03 {
            Machine::X86
        } else if value == 0x3e {
            Machine::Amd64
        } else if value == 0xf3 {
            Machine::RiscV
        } else {
            Machine::Unknown(value)
        }
    }

    /// Parse the machine field at offset 18.
    pub fn parse(value: u16) -> (r: Machine)
        ensures
            r == Machine::spec_parse(value),
    {
        match value {
            0x03u16 => Machine::X86,
            0x3eu16 => Machine::Amd64,
            0xf3u16 => Machine::RiscV,
            _ => Machine::Unknown(value),
        }
    }
}

/// Where one of the two header tables lives: its file offset, the size
/// of one entry, and how many entries it has.
#[derive(Copy, Clone, PartialEq, Eq, Structural, Debug)]
pub struct Header {
    pub offset: usize,
    pub entry_size: usize,
    pub num_entries: usize,
}

/// What one program header entry describes.
#[derive(Copy, Clone, PartialEq, Eq, Structural, Debug)]
pub enum ProgramHeaderTyp {
    /// Program header table entry unused
    Null,
    /// Loadable segment
    Load,
    /// Dynamic linking information
    Dynamic,
    /// Interpreter information
    Interp,
    /// Auxiliary information
    Note,
    /// Reserved
    Shlib,
    /// Segment containing the program header table itself
    ProgramHeader,
    /// Thread-local storage template
    ThreadLocalStorage,
    /// Reserved inclusive range, operating system specific
    OperatingSystem(u32),
    /// Reserved inclusive range, processor specific
    Processor(u32),
    /// Unknown
    Unknown(u32),
}

impl ProgramHeaderTyp {
    /// The segment kind a 32-bit field names; every value is accepted.
    pub open spec fn spec_parse(value: u32) -> ProgramHeaderTyp {
        if value == 0x00000000 {
            ProgramHeaderTyp::Null
        } else if value == 0x00000001 {
            ProgramHeaderTyp::Load
        } else if value == 0x00000002 {
            ProgramHeaderTyp::Dynamic
        } else if value == 0x00000003 {
            ProgramHeaderTyp::Interp
        } else if value == 0x00000004 {
            ProgramHeaderTyp::Note
        } else if value == 0x00000005 {
            ProgramHeaderTyp::Shlib
        } else if value == 0x00000006 {
            ProgramHeaderTyp::ProgramHeader
        } else if value == 0x00000007 {
            ProgramHeaderTyp::ThreadLocalStorage
        } else if 0x60000000 <= value && value <= 0x6FFFFFFF {
            ProgramHeaderTyp::OperatingSystem(value)
        } else if 0x70000000 <= value && value <= 0x7FFFFFFF {
            ProgramHeaderTyp::Processor(value)
        } else {
            ProgramHeaderTyp::Unknown(value)
        }
    }

    /// Parse the segment type field of a program header entry.
    pub fn parse(value: u32) -> (r: ProgramHeaderTyp)
        ensures
            r == ProgramHeaderTyp::spec_parse(value),
    {
        if value == 0x00000000 {
            ProgramHeaderTyp::Null
        } else if value == 0x00000001 {
            ProgramHeaderTyp::Load
        } else if value == 0x00000002 {
            ProgramHeaderTyp::Dynamic
        } else if value == 0x00000003 {
            ProgramHeaderTyp::Interp
        } else if value == 0x00000004 {
            ProgramHeaderTyp::Note
        } else if value == 0x00000005 {
            ProgramHeaderTyp::Shlib
        } else if value == 0x00000006 {
            ProgramHeaderTyp::ProgramHeader
        } else if value == 0x00000007 {
            ProgramHeaderTyp::ThreadLocalStorage
        } else if 0x60000000 <= value && value <= 0x6FFFFFFF {
            ProgramHeaderTyp::OperatingSystem(value)
        } else if 0x70000000 <= value && value <= 0x7FFFFFFF {
            ProgramHeaderTyp::Processor(value)
        } else {
            ProgramHeaderTyp::Unknown(value)
        }
    }
}

/// One program header entry: a segment's kind, where its bytes sit in
/// the file, where it lives in guest memory, and its sizes.
#[derive(Copy, Clone, PartialEq, Eq, Structural, Debug)]
pub struct ProgramHeader {
    pub typ: ProgramHeaderTyp,
    pub flags: u32,
    pub offset: u64,
    pub vaddr: u64,
    pub paddr: u64,
    pub file_size: u64,
    pub memory_size: u64,
    pub alignment: u64,
}

/// What `ProgramHeader::parse` returns on a byte buffer: the fields of
/// the entry's first 56 bytes, or a size error on a shorter buffer.
pub open spec fn spec_parse_program_header(s: Seq<u8>) -> Result<ProgramHeader, ElfError> {
    if s.len() < 56 {
        Err(ElfError::InvalidProgramHeaderBufferSize)
    } else {
        Ok(
            ProgramHeader {
                typ: ProgramHeaderTyp::spec_parse(le32(s, 0)),
                flags: le32(s, 4),
                offset: le64(s, 8),
                vaddr: le64(s, 16),
                paddr: le64(s, 24),
                file_size: le64(s, 32),
                memory_size: le64(s, 40),
                alignment: le64(s, 48),
            },
        )
    }
}

/// Read a 16-bit little-endian value out of a byte slice.
fn read_u16_at(bytes: &[u8], off: usize) -> (r: u16)
    requires
        off + 2 <= bytes@.len(),
    ensures
        r == le16(bytes@, off as int),
{
    let v0 = bytes[off] as u16;
    let v1 = bytes[off + 1] as u16;
    (v1 << 8) | v0
}

/// Read a 32-bit little-endian value out of a byte slice.
fn read_u32_at(bytes: &[u8], off: usize) -> (r: u32)
    requires
        off + 4 <= bytes@.len(),
    ensures
        r == le32(bytes@, off as int),
{
    let v0 = bytes[off] as u32;
    let v1 = bytes[off + 1] as u32;
    let v2 = bytes[off + 2] as u32;
    let v3 = bytes[off + 3] as u32;
    (v3 << 24) | (v2 << 16) | (v1 << 8) | v0
}

/// Read a 64-bit little-endian value out of a byte slice.
fn read_u64_at(bytes: &[u8], off: usize) -> (r: u64)
    requires
        off + 8 <= bytes@.len(),
    ensures
        r == le64(bytes@, off as int),
{
    let v0 = bytes[off] as u64;
    let v1 = bytes[off + 1] as u64;
    let v2 = bytes[off + 2] as u64;
    let v3 = bytes[off + 3] as u64;
    let v4 = bytes[off + 4] as u64;
    let v5 = bytes[off + 5] as u64;
    let v6 = bytes[off + 6] as u64;
    let v7 = bytes[off + 7] as u64;
    (v7 << 56) | (v6 << 48) | (v5 << 40) | (v4 << 32) | (v3 << 24) | (v2 << 16) | (v1 << 8) | v0
}

impl ProgramHeader {
    /// Parse one program header entry out of the front of a buffer.
    pub fn parse(bytes: &[u8]) -> (r: Result<ProgramHeader, ElfError>)
        ensures
            r == spec_parse_program_header(bytes@),
    {
        if bytes.len() < 56 {
            return Err(ElfError::InvalidProgramHeaderBufferSize);
        }
        let typ = ProgramHeaderTyp::parse(read_u32_at(bytes, 0));
        let flags = read_u32_at(bytes, 4);
        let offset = read_u64_at(bytes, 8);
        let vaddr = read_u64_at(bytes, 16);
        let paddr = read_u64_at(bytes, 24);
        let file_size = read_u64_at(bytes, 32);
        let memory_size = read_u64_at(bytes, 40);
        let alignment = read_u64_at(bytes, 48);
        Ok(ProgramHeader { typ, flags, offset, vaddr, paddr, file_size, memory_size, alignment })
    }

    /// The segment's kind.
    pub fn typ(&self) -> (r: ProgramHeaderTyp)
        ensures
            r == self.typ,
    {
        self.typ
    }

    /// The guest virtual address the segment is loaded at.
    pub fn vaddr(&self) -> (r: u64)
        ensures
            r == self.vaddr,
    {
        self.vaddr
    }

    /// How many of the segment's bytes sit in the file.
    pub fn file_size(&self) -> (r: u64)
        ensures
            r == self.file_size,
    {
        self.file_size
    }
}

/// A parsed ELF64 image: the identification fields, the entry point,
/// and where the two header tables live. Borrows the file's bytes.
pub struct Elf<'a> {
    pub bytes: &'a [u8],
    pub class: Class,
    pub data: Data,
    pub os_abi: OsAbi,
    pub os_abi_version: u8,
    pub typ: Typ,
    pub machine: Machine,
    pub entry: u64,
    pub program_header: Header,
    pub section_header: Header,
    pub string_table_index: usize,
}

/// The first four bytes name an ELF image: `0x7f 'E' 'L' 'F'`.
pub open spec fn magic_ok(s: Seq<u8>) -> bool {
    s[0] == 0x7fu8 && s[1] == 0x45u8 && s[2] == 0x4cu8 && s[3] == 0x46u8
}

/// What `Elf::program_header` returns for entry `index` of a table at
/// `offset` whose entries are `entry_size` bytes: the parsed entry, or
/// a size error when the buffer does not hold that whole entry.
pub open spec fn spec_program_header_at(
    s: Seq<u8>,
    offset: int,
    entry_size: int,
    index: int,
) -> Result<ProgramHeader, ElfError> {
    let start = offset + index * entry_size;
    if start + entry_size <= s.len() {
        spec_parse_program_header(s.subrange(start, start + entry_size))
    } else {
        Err(ElfError::InvalidProgramHeaderBufferSize)
    }
}

impl<'a> Elf<'a> {
    /// Parse the 64-byte ELF header. The caller hands in at least the
    /// header; the magic, class and data bytes are checked and every
    /// other identification field is taken as it stands.
    pub fn parse(bytes: &'a [u8]) -> (r: Result<Elf<'a>, ElfError>)
        requires
            bytes@.len() >= 64,
        ensures
            !magic_ok(bytes@) ==> r == Err::<Elf<'a>, ElfError>(ElfError::InvalidMagic),
            magic_ok(bytes@) ==> (Class::spec_parse(bytes@[4]) matches Err(e) ==> r == Err::<
                Elf<'a>,
                ElfError,
            >(e)),
            magic_ok(bytes@) && Class::spec_parse(bytes@[4]) is Ok ==> (Data::spec_parse(
                bytes@[5],
            ) matches Err(e) ==> r == Err::<Elf<'a>, ElfError>(e)),
            magic_ok(bytes@) && Class::spec_parse(bytes@[4]) is Ok && Data::spec_parse(bytes@[5])
                is Ok && le64(bytes@, 32) > usize::MAX ==> r == Err::<Elf<'a>, ElfError>(
                ElfError::ProgramHeaderOffsetConvertionError,
            ),
            magic_ok(bytes@) && Class::spec_parse(bytes@[4]) is Ok && Data::spec_parse(bytes@[5])
                is Ok && le64(bytes@, 32) <= usize::MAX && le64(bytes@, 40) > usize::MAX ==> r
                == Err::<Elf<'a>, ElfError>(ElfError::SectionHeaderOffsetConvertionError),
            magic_ok(bytes@) && Class::spec_parse(bytes@[4]) is Ok && Data::spec_parse(bytes@[5])
                is Ok && le64(bytes@, 32) <= usize::MAX && le64(bytes@, 40) <= usize::MAX ==> (
            r matches Ok(e) && e.bytes@ == bytes@ && e.class == Class::spec_parse(
                bytes@[4],
            )->Ok_0 && e.data == Data::spec_parse(bytes@[5])->Ok_0 && e.os_abi
                == OsAbi::spec_parse(bytes@[7]) && e.os_abi_version == bytes@[8] && e.typ
                == Typ::spec_parse(le16(bytes@, 16)) && e.machine == Machine::spec_parse(
                le16(bytes@, 18),
            ) && e.entry == le64(bytes@, 24) && e.program_header.offset == le64(bytes@, 32)
                && e.program_header.entry_size == le16(bytes@, 54) && e.program_header.num_entries
                == le16(bytes@, 56) && e.section_header.offset == le64(bytes@, 40)
                && e.section_header.entry_size == le16(bytes@, 58)
                && e.section_header.num_entries == le16(bytes@, 60) && e.string_table_index
                == le16(bytes@, 62)),
    {
        if !(bytes[0] == 0x7f && bytes[1] == 0x45 && bytes[2] == 0x4c && bytes[3] == 0x46) {
            return Err(ElfError::InvalidMagic);
        }
        let class = match Class::parse(bytes[4]) {
            Ok(c) => c,
            Err(e) => {
                return Err(e);
            },
        };
        let data = match Data::parse(bytes[5]) {
            Ok(d) => d,
            Err(e) => {
                return Err(e);
            },
        };
        let os_abi = OsAbi::parse(bytes[7]);
        let os_abi_version = bytes[8];
        let typ = Typ::parse(read_u16_at(bytes, 16));
        let machine = Machine::parse(read_u16_at(bytes, 18));
        let entry = read_u64_at(bytes, 24);
        let program_header_offset = read_u64_at(bytes, 32);
        let section_header_offset = read_u64_at(bytes, 40);
        let program_header_entry_size = read_u16_at(bytes, 54);
        let num_program_header_entries = read_u16_at(bytes, 56);
        let section_header_entry_size = read_u16_at(bytes, 58);
        let num_section_header_entries = read_u16_at(bytes, 60);
        let string_table_index = read_u16_at(bytes, 62);
        if program_header_offset > usize::MAX as u64 {
            return Err(ElfError::ProgramHeaderOffsetConvertionError);
        }
        if section_header_offset > usize::MAX as u64 {
            return Err(ElfError::SectionHeaderOffsetConvertionError);
        }
        let program_header = Header {
            offset: program_header_offset as usize,
            entry_size: program_header_entry_size as usize,
            num_entries: num_program_header_entries as usize,
        };
        let section_header = Header {
            offset: section_header_offset as usize,
            entry_size: section_header_entry_size as usize,
            num_entries: num_section_header_entries as usize,
        };
        Ok(
            Elf {
                bytes,
                class,
                data,
                os_abi,
                os_abi_version,
                typ,
                machine,
                entry,
                program_header,
                section_header,
                string_table_index: string_table_index as usize,
            },
        )
    }

    /// The guest address execution starts at.
    pub fn entry(&self) -> (r: u64)
        ensures
            r == self.entry,
    {
        self.entry
    }

    /// Parse program header entry `index` out of the table.
    pub fn program_header(&self, index: usize) -> (r: Result<ProgramHeader, ElfError>)
        ensures
            r == spec_program_header_at(
                self.bytes@,
                self.program_header.offset as int,
                self.program_header.entry_size as int,
                index as int,
            ),
    {
        let blen: usize = self.bytes.len();
        let entry_size = self.program_header.entry_size;
        let prod = match index.checked_mul(entry_size) {
            Some(p) => p,
            None => {
                return Err(ElfError::InvalidProgramHeaderBufferSize);
            },
        };
        let start = match self.program_header.offset.checked_add(prod) {
            Some(s) => s,
            None => {
                return Err(ElfError::InvalidProgramHeaderBufferSize);
            },
        };
        let end = match start.checked_add(entry_size) {
            Some(e) => e,
            None => {
                return Err(ElfError::InvalidProgramHeaderBufferSize);
            },
        };
        if end > blen {
            return Err(ElfError::InvalidProgramHeaderBufferSize);
        }
        let slice = &self.bytes[start..end];
        ProgramHeader::parse(slice)
    }

    /// Walk the program header table from the first entry.
    pub fn program_header_iter(&self) -> (r: ProgramHeaderIter<'_, 'a>)
        ensures
            r.elf == self,
            r.current_index == 0,
    {
        ProgramHeaderIter { elf: self, current_index: 0 }
    }

    /// The bytes a segment contributes to guest memory: the
    /// `file_size` bytes at the segment's file offset, or nothing when
    /// the image does not hold them all.
    pub fn program_header_data(&self, program_header: &ProgramHeader) -> (r: Option<Vec<u8>>)
        ensures
            r is Some <==> program_header.offset + program_header.file_size <= self.bytes@.len(),
            r matches Some(v) ==> v@ == self.bytes@.subrange(
                program_header.offset as int,
                program_header.offset + program_header.file_size,
            ),
    {
        let blen: usize = self.bytes.len();
        let len = blen as u64;
        if program_header.offset > len || program_header.file_size > len
            - program_header.offset {
            return None;
        }
        let offset = program_header.offset as usize;
        let count = program_header.file_size as usize;
        let mut data: Vec<u8> = Vec::new();
        let mut i: usize = 0;
        while i < count
            invariant
                0 <= i <= count,
                offset + count <= self.bytes@.len(),
                self.bytes@.len() <= usize::MAX,
                data@ == self.bytes@.subrange(offset as int, offset + i),
            decreases count - i,
        {
            data.push(self.bytes[offset + i]);
            i = i + 1;
            proof {
                assert(data@ =~= self.bytes@.subrange(offset as int, offset + i));
            }
        }
        Some(data)
    }
}

/// Walks the program header table of an image, entry by entry.
pub struct ProgramHeaderIter<'b, 'a> {
    pub elf: &'b Elf<'a>,
    pub current_index: usize,
}

impl<'b, 'a> ProgramHeaderIter<'b, 'a> {
    /// The next program header: `None` past the table's end or on an
    /// entry that does not parse.
    pub fn next(&mut self) -> (r: Option<ProgramHeader>)
        ensures
            final(self).elf == old(self).elf,
            old(self).current_index >= old(self).elf.program_header.num_entries ==> r is None
                && final(self).current_index == old(self).current_index,
            old(self).current_index < old(self).elf.program_header.num_entries ==> (
            match spec_program_header_at(
                old(self).elf.bytes@,
                old(self).elf.program_header.offset as int,
                old(self).elf.program_header.entry_size as int,
                old(self).current_index as int,
            ) {
                Ok(ph) => r == Some(ph) && final(self).current_index == old(self).current_index
                    + 1,
                Err(_) => r is None && final(self).current_index == old(self).current_index,
            }),
    {
        if self.current_index >= self.elf.program_header.num_entries {
            return None;
        }
        match self.elf.program_header(self.current_index) {
            Ok(program_header) => {
                self.current_index = self.current_index + 1;
                Some(program_header)
            },
            Err(_) => None,
        }
    }
}

} // verus!
