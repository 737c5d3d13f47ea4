//! The concrete guest-memory backend the test harness uses: a flat
//! little-endian byte buffer mapped at guest base `0x8000_0000`, with a
//! console sink at address `0x1000` whose bytes are collected for the
//! host to drain.

use vstd::prelude::*;
use crate::bits::{le16, le32, le64, store_le16, store_le32, store_le64};
use crate::memory::{MemFault, Mmu, TypeWidth};

verus! {

/// The guest physical address at which the flat buffer is mapped.
pub const MEMORY_OFFSET: u64 = 0x80000000;

/// The write-only console sink: each byte written here is collected
/// for the host's standard output.
pub const CONSOLE_ADDRESS: u64 = 0x1000;

/// A flat byte buffer addressed from zero, read and written in
/// little-endian order.
pub struct TestingMemory {
    pub memory: Vec<u8>,
}

impl View for TestingMemory {
    type V = Seq<u8>;

    open spec fn view(&self) -> Seq<u8> {
        self.memory@
    }
}

impl TestingMemory {
    /// A zero-filled buffer of the given size.
    pub fn new(size: usize) -> (r: TestingMemory)
        ensures
            r@.len() == size,
            forall|i: int| 0 <= i < size ==> r@[i] == 0u8,
    {
        let memory: Vec<u8> = vec![0u8; size];
        proof {
            assert forall|i: int| 0 <= i < size implies memory@[i] == 0u8 by {
                assert(cloned(0u8, memory@[i]));
            }
        }
        TestingMemory { memory }
    }

    /// The buffer's size in bytes.
    pub fn len(&self) -> (r: usize)
        ensures
            r == self@.len(),
    {
        self.memory.len()
    }

    /// Store one byte.
    pub fn write_u8(&mut self, addr: usize, value: u8)
        requires
            addr < old(self)@.len(),
        ensures
            final(self)@ == old(self)@.update(addr as int, value),
    {
        self.memory[addr] = value;
    }

    /// Store a 16-bit value in little-endian order.
    pub fn write_u16(&mut self, addr: usize, value: u16)
        requires
            addr + 2 <= old(self)@.len(),
        ensures
            final(self)@ == store_le16(old(self)@, addr as int, value),
    {
        // The buffer's length, in hand so the index arithmetic below
        // stays within the host's word.
        let _len: usize = self.memory.len();
        self.memory[addr] = value as u8;
        self.memory[addr + 1] = (value >> 8) as u8;
    }

    /// Store a 32-bit value in little-endian order.
    pub fn write_u32(&mut self, addr: usize, value: u32)
        requires
            addr + 4 <= old(self)@.len(),
        ensures
            final(self)@ == store_le32(old(self)@, addr as int, value),
    {
        // The buffer's length, in hand so the index arithmetic below
        // stays within the host's word.
        let _len: usize = self.memory.len();
        self.memory[addr] = value as u8;
        self.memory[addr + 1] = (value >> 8) as u8;
        self.memory[addr + 2] = (value >> 16) as u8;
        self.memory[addr + 3] = (value >> 24) as u8;
    }

    /// Store a 64-bit value in little-endian order.
    pub fn write_u64(&mut self, addr: usize, value: u64)
        requires
            addr + 8 <= old(self)@.len(),
        ensures
            final(self)@ == store_le64(old(self)@, addr as int, value),
    {
        // The buffer's length, in hand so the index arithmetic below
        // stays within the host's word.
        let _len: usize = self.memory.len();
        self.memory[addr] = value as u8;
        self.memory[addr + 1] = (value >> 8) as u8;
        self.memory[addr + 2] = (value >> 16) as u8;
        self.memory[addr + 3] = (value >> 24) as u8;
        self.memory[addr + 4] = (value >> 32) as u8;
        self.memory[addr + 5] = (value >> 40) as u8;
        self.memory[addr + 6] = (value >> 48) as u8;
        self.memory[addr + 7] = (value >> 56) as u8;
    }

    /// Load one byte.
    pub fn read_u8(&self, addr: usize) -> (r: u8)
        requires
            addr < self@.len(),
        ensures
            r == self@[addr as int],
    {
        self.memory[addr]
    }

    /// Load a 16-bit little-endian value.
    pub fn read_u16(&self, addr: usize) -> (r: u16)
        requires
            addr + 2 <= self@.len(),
        ensures
            r == le16(self@, addr as int),
    {
        // The buffer's length, in hand so the index arithmetic below
        // stays within the host's word.
        let _len: usize = self.memory.len();
        let v0 = self.memory[addr] as u16;
        let v1 = self.memory[addr + 1] as u16;
        (v1 << 8) | v0
    }

    /// Load a 32-bit little-endian value.
    pub fn read_u32(&self, addr: usize) -> (r: u32)
        requires
            addr + 4 <= self@.len(),
        ensures
            r == le32(self@, addr as int),
    {
        // The buffer's length, in hand so the index arithmetic below
        // stays within the host's word.
        let _len: usize = self.memory.len();
        let v0 = self.memory[addr] as u32;
        let v1 = self.memory[addr + 1] as u32;
        let v2 = self.memory[addr + 2] as u32;
        let v3 = self.memory[addr + 3] as u32;
        (v3 << 24) | (v2 << 16) | (v1 << 8) | v0
    }

    /// Load a 64-bit little-endian value.
    pub fn read_u64(&self, addr: usize) -> (r: u64)
        requires
            addr + 8 <= self@.len(),
        ensures
            r == le64(self@, addr as int),
    {
        // The buffer's length, in hand so the index arithmetic below
        // stays within the host's word.
        let _len: usize = self.memory.len();
        let v0 = self.memory[addr] as u64;
        let v1 = self.memory[addr + 1] as u64;
        let v2 = self.memory[addr + 2] as u64;
        let v3 = self.memory[addr + 3] as u64;
        let v4 = self.memory[addr + 4] as u64;
        let v5 = self.memory[addr + 5] as u64;
        let v6 = self.memory[addr + 6] as u64;
        let v7 = self.memory[addr + 7] as u64;
        (v7 << 56) | (v6 << 48) | (v5 << 40) | (v4 << 32) | (v3 << 24) | (v2 << 16) | (v1 << 8)
            | v0
    }
}

/// What a `TestingMmu` holds: the mapped bytes and the console bytes
/// written so far and not yet drained by the host.
#[verifier::ext_equal]
pub ghost struct MmuView {
    pub mem: Seq<u8>,
    pub console: Seq<u8>,
}

/// The memory backend of the test harness: the flat buffer mapped at
/// `MEMORY_OFFSET`, plus the console sink at `CONSOLE_ADDRESS`.
pub struct TestingMmu {
    pub memory: TestingMemory,
    pub console: Vec<u8>,
}

impl View for TestingMmu {
    type V = MmuView;

    open spec fn view(&self) -> MmuView {
        MmuView { mem: self.memory@, console: self.console@ }
    }
}

impl TestingMmu {
    /// Wrap a flat buffer; the console starts empty.
    pub fn new(memory: TestingMemory) -> (r: TestingMmu)
        ensures
            r@.mem == memory@,
            r@.console == Seq::<u8>::empty(),
    {
        TestingMmu { memory, console: Vec::new() }
    }

    /// Hand the collected console bytes to the caller and start
    /// collecting afresh. The mapped memory is untouched.
    pub fn take_output(&mut self) -> (out: Vec<u8>)
        ensures
            out@ == old(self)@.console,
            final(self)@.console == Seq::<u8>::empty(),
            final(self)@.mem == old(self)@.mem,
    {
        let mut out: Vec<u8> = Vec::new();
        core::mem::swap(&mut out, &mut self.console);
        out
    }
}

impl Mmu for TestingMmu {
    open spec fn inv(&self) -> bool {
        true
    }

    open spec fn can_read(&self, addr: u64, width: TypeWidth) -> bool {
        addr >= MEMORY_OFFSET && addr - MEMORY_OFFSET + width.byte_count() <= self@.mem.len()
    }

    open spec fn read_spec(&self, addr: u64, width: TypeWidth) -> u64 {
        let off = addr - MEMORY_OFFSET;
        match width {
            TypeWidth::Byte => self@.mem[off] as u64,
            TypeWidth::HalfWord => le16(self@.mem, off) as u64,
            TypeWidth::Word => le32(self@.mem, off) as u64,
            TypeWidth::DoubleWord => le64(self@.mem, off),
        }
    }

    open spec fn can_write(&self, addr: u64, width: TypeWidth) -> bool {
        addr == CONSOLE_ADDRESS || (addr >= MEMORY_OFFSET && addr - MEMORY_OFFSET
            + width.byte_count() <= self@.mem.len())
    }

    open spec fn write_rel(
        pre: TestingMmu,
        addr: u64,
        value: u64,
        width: TypeWidth,
        post: TestingMmu,
    ) -> bool {
        if addr == CONSOLE_ADDRESS {
            post@.mem == pre@.mem && post@.console == pre@.console.push(value as u8)
        } else {
            let off = addr - MEMORY_OFFSET;
            post@.console == pre@.console && post@.mem == (match width {
                TypeWidth::Byte => pre@.mem.update(off, value as u8),
                TypeWidth::HalfWord => store_le16(pre@.mem, off, value as u16),
                TypeWidth::Word => store_le32(pre@.mem, off, value as u32),
                TypeWidth::DoubleWord => store_le64(pre@.mem, off, value),
            })
        }
    }

    /// Read from the mapped range; an address outside it faults.
    fn read(&self, addr: u64, width: TypeWidth) -> (r: Result<u64, MemFault>) {
        let len = self.memory.len() as u64;
        let nbytes = width.bytes();
        if addr >= MEMORY_OFFSET {
            let off = addr - MEMORY_OFFSET;
            if off < len && nbytes <= len - off {
                let off = off as usize;
                return Ok(
                    match width {
                        TypeWidth::Byte => self.memory.read_u8(off) as u64,
                        TypeWidth::HalfWord => self.memory.read_u16(off) as u64,
                        TypeWidth::Word => self.memory.read_u32(off) as u64,
                        TypeWidth::DoubleWord => self.memory.read_u64(off),
                    },
                );
            }
        }
        Err(MemFault { addr })
    }

    /// Write to the mapped range, or to the console sink at
    /// `CONSOLE_ADDRESS`, which collects the low byte of the value; any
    /// other address faults and the backend is unchanged.
    fn write(&mut self, addr: u64, value: u64, width: TypeWidth) -> (r: Result<(), MemFault>) {
        if addr == CONSOLE_ADDRESS {
            self.console.push(value as u8);
            return Ok(());
        }
        let len = self.memory.len() as u64;
        let nbytes = width.bytes();
        if addr >= MEMORY_OFFSET {
            let off = addr - MEMORY_OFFSET;
            if off < len && nbytes <= len - off {
                let off = off as usize;
                match width {
                    TypeWidth::Byte => self.memory.write_u8(off, value as u8),
                    TypeWidth::HalfWord => self.memory.write_u16(off, value as u16),
                    TypeWidth::Word => self.memory.write_u32(off, value as u32),
                    TypeWidth::DoubleWord => self.memory.write_u64(off, value),
                }
                return Ok(());
            }
        }
        Err(MemFault { addr })
    }
}

} // verus!
