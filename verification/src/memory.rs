//! The width-parameterized guest-memory interface the executor talks
//! through, and the fault a memory access can raise.

use vstd::prelude::*;

verus! {

/// The width of one memory access: 8, 16, 32 or 64 bits.
#[derive(Copy, Clone, PartialEq, Eq, Structural, Debug)]
pub enum TypeWidth {
    /// u8
    Byte,
    /// u16
    HalfWord,
    /// u32
    Word,
    /// u64
    DoubleWord,
}

impl TypeWidth {
    /// How many bytes an access of this width touches.
    pub open spec fn byte_count(self) -> int {
        match self {
            TypeWidth::Byte => 1,
            TypeWidth::HalfWord => 2,
            TypeWidth::Word => 4,
            TypeWidth::DoubleWord => 8,
        }
    }

    /// The largest value an access of this width can produce.
    pub open spec fn max_value(self) -> u64 {
        match self {
            TypeWidth::Byte => 0xff,
            TypeWidth::HalfWord => 0xffff,
            TypeWidth::Word => 0xffff_ffff,
            TypeWidth::DoubleWord => 0xffff_ffff_ffff_ffff,
        }
    }

    /// How many bytes an access of this width touches.
    pub fn bytes(self) -> (r: u64)
        ensures
            r == self.byte_count(),
    {
        match self {
            TypeWidth::Byte => 1,
            TypeWidth::HalfWord => 2,
            TypeWidth::Word => 4,
            TypeWidth::DoubleWord => 8,
        }
    }
}

/// A memory access that could not be performed; carries the guest
/// address that faulted.
#[derive(Copy, Clone, PartialEq, Eq, Structural, Debug)]
pub struct MemFault {
    pub addr: u64,
}

/// Byte-addressable little-endian guest memory with one read and one
/// write operation, each parameterized by access width. A backend says
/// through the spec functions which addresses it accepts, what a read
/// returns, and how a write transforms it.
pub trait Mmu: Sized {
    /// Well-formedness of the backend's state.
    spec fn inv(&self) -> bool;

    /// Whether a read of the given width at the given address succeeds.
    spec fn can_read(&self, addr: u64, width: TypeWidth) -> bool;

    /// The value a successful read returns: the little-endian value of
    /// `width` at `addr`, zero-extended to 64 bits.
    spec fn read_spec(&self, addr: u64, width: TypeWidth) -> u64;

    /// Whether a write of the given width at the given address succeeds.
    spec fn can_write(&self, addr: u64, width: TypeWidth) -> bool;

    /// How a successful write transforms the backend: it stores the low
    /// `width` bits of `value` at `addr` in little-endian order.
    spec fn write_rel(pre: Self, addr: u64, value: u64, width: TypeWidth, post: Self) -> bool;

    /// Read the little-endian value of the given width at `addr`,
    /// zero-extended to 64 bits.
    fn read(&self, addr: u64, width: TypeWidth) -> (r: Result<u64, MemFault>)
        requires
            self.inv(),
        ensures
            r is Ok <==> self.can_read(addr, width),
            r matches Ok(v) ==> v == self.read_spec(addr, width) && v <= width.max_value(),
            r matches Err(f) ==> f == (MemFault { addr }),
    ;

    /// Store the low `width` bits of `value` at `addr` in little-endian
    /// order. A failed write leaves the backend unchanged.
    fn write(&mut self, addr: u64, value: u64, width: TypeWidth) -> (r: Result<(), MemFault>)
        requires
            old(self).inv(),
        ensures
            final(self).inv(),
            r is Ok <==> old(self).can_write(addr, width),
            r is Ok ==> Self::write_rel(*old(self), addr, value, width, *final(self)),
            r is Err ==> *final(self) == *old(self),
            r matches Err(f) ==> f == (MemFault { addr }),
    ;

    /// Read one byte.
    fn read_u8(&self, addr: u64) -> (r: Result<u8, MemFault>)
        requires
            self.inv(),
        ensures
            r is Ok <==> self.can_read(addr, TypeWidth::Byte),
            r matches Ok(v) ==> v == self.read_spec(addr, TypeWidth::Byte),
            r matches Err(f) ==> f == (MemFault { addr }),
    {
        match self.read(addr, TypeWidth::Byte) {
            Ok(v) => Ok(v as u8),
            Err(f) => Err(f),
        }
    }

    /// Read a 16-bit little-endian value.
    fn read_u16(&self, addr: u64) -> (r: Result<u16, MemFault>)
        requires
            self.inv(),
        ensures
            r is Ok <==> self.can_read(addr, TypeWidth::HalfWord),
            r matches Ok(v) ==> v == self.read_spec(addr, TypeWidth::HalfWord),
            r matches Err(f) ==> f == (MemFault { addr }),
    {
        match self.read(addr, TypeWidth::HalfWord) {
            Ok(v) => Ok(v as u16),
            Err(f) => Err(f),
        }
    }

    /// Read a 32-bit little-endian value.
    fn read_u32(&self, addr: u64) -> (r: Result<u32, MemFault>)
        requires
            self.inv(),
        ensures
            r is Ok <==> self.can_read(addr, TypeWidth::Word),
            r matches Ok(v) ==> v == self.read_spec(addr, TypeWidth::Word),
            r matches Err(f) ==> f == (MemFault { addr }),
    {
        match self.read(addr, TypeWidth::Word) {
            Ok(v) => Ok(v as u32),
            Err(f) => Err(f),
        }
    }

    /// Read a 64-bit little-endian value.
    fn read_u64(&self, addr: u64) -> (r: Result<u64, MemFault>)
        requires
            self.inv(),
        ensures
            r is Ok <==> self.can_read(addr, TypeWidth::DoubleWord),
            r matches Ok(v) ==> v == self.read_spec(addr, TypeWidth::DoubleWord),
            r matches Err(f) ==> f == (MemFault { addr }),
    {
        self.read(addr, TypeWidth::DoubleWord)
    }

    /// Write one byte.
    fn write_u8(&mut self, addr: u64, value: u8) -> (r: Result<(), MemFault>)
        requires
            old(self).inv(),
        ensures
            final(self).inv(),
            r is Ok <==> old(self).can_write(addr, TypeWidth::Byte),
            r is Ok ==> Self::write_rel(
                *old(self),
                addr,
                value as u64,
                TypeWidth::Byte,
                *final(self),
            ),
            r is Err ==> *final(self) == *old(self),
    {
        self.write(addr, value as u64, TypeWidth::Byte)
    }

    /// Write a 16-bit value in little-endian order.
    fn write_u16(&mut self, addr: u64, value: u16) -> (r: Result<(), MemFault>)
        requires
            old(self).inv(),
        ensures
            final(self).inv(),
            r is Ok <==> old(self).can_write(addr, TypeWidth::HalfWord),
            r is Ok ==> Self::write_rel(
                *old(self),
                addr,
                value as u64,
                TypeWidth::HalfWord,
                *final(self),
            ),
            r is Err ==> *final(self) == *old(self),
    {
        self.write(addr, value as u64, TypeWidth::HalfWord)
    }

    /// Write a 32-bit value in little-endian order.
    fn write_u32(&mut self, addr: u64, value: u32) -> (r: Result<(), MemFault>)
        requires
            old(self).inv(),
        ensures
            final(self).inv(),
            r is Ok <==> old(self).can_write(addr, TypeWidth::Word),
            r is Ok ==> Self::write_rel(
                *old(self),
                addr,
                value as u64,
                TypeWidth::Word,
                *final(self),
            ),
            r is Err ==> *final(self) == *old(self),
    {
        self.write(addr, value as u64, TypeWidth::Word)
    }

    /// Write a 64-bit value in little-endian order.
    fn write_u64(&mut self, addr: u64, value: u64) -> (r: Result<(), MemFault>)
        requires
            old(self).inv(),
        ensures
            final(self).inv(),
            r is Ok <==> old(self).can_write(addr, TypeWidth::DoubleWord),
            r is Ok ==> Self::write_rel(
                *old(self),
                addr,
                value,
                TypeWidth::DoubleWord,
                *final(self),
            ),
            r is Err ==> *final(self) == *old(self),
    {
        self.write(addr, value, TypeWidth::DoubleWord)
    }
}

} // verus!
