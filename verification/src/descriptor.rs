//! One entry of the descriptor table.
//!
//! Descriptors are written by the guest driver and read-only for the device;
//! every field is untrusted input. A descriptor names one memory segment
//! (`addr`, `len`), its direction (the write-only flag), and, if the has-next
//! flag is set, the table index of the next segment of the chain.

use vstd::prelude::*;

use crate::defs::VIRTQ_DESC_F_INDIRECT;
use crate::defs::VIRTQ_DESC_F_NEXT;
use crate::defs::VIRTQ_DESC_F_WRITE;

verus! {

/// A descriptor-table entry, decoded from its 16-byte wire layout.
#[derive(Clone, Copy, Debug, PartialEq, Eq, Structural)]
pub struct Descriptor {
    /// Guest-physical address of the segment.
    pub addr: u64,
    /// Byte length of the segment; zero is legal and must be surfaced.
    pub len: u32,
    /// Flag bits: has-next, write-only-for-device, indirect.
    pub flags: u16,
    /// Table index of the following descriptor; meaningful only when the
    /// has-next flag is set.
    pub next: u16,
}

impl Descriptor {
    /// The has-next flag is set: the chain continues at `next`.
    pub open spec fn spec_has_next(self) -> bool {
        self.flags & VIRTQ_DESC_F_NEXT != 0
    }

    /// The write-only flag is set: the device may only write this segment.
    pub open spec fn spec_is_write_only(self) -> bool {
        self.flags & VIRTQ_DESC_F_WRITE != 0
    }

    /// The indirect flag is set: the segment holds a further table.
    pub open spec fn spec_refers_to_indirect_table(self) -> bool {
        self.flags & VIRTQ_DESC_F_INDIRECT != 0
    }

    /// Builds a descriptor from its four fields.
    pub fn new(addr: u64, len: u32, flags: u16, next: u16) -> (r: Descriptor)
        ensures
            r == (Descriptor { addr, len, flags, next }),
    {
        Descriptor { addr, len, flags, next }
    }

    /// Guest-physical address of the segment.
    pub fn addr(&self) -> (r: u64)
        ensures
            r == self.addr,
    {
        self.addr
    }

    /// Byte length of the segment.
    pub fn len(&self) -> (r: u32)
        ensures
            r == self.len,
    {
        self.len
    }

    /// The raw flag bits.
    pub fn flags(&self) -> (r: u16)
        ensures
            r == self.flags,
    {
        self.flags
    }

    /// Table index of the following descriptor.
    pub fn next(&self) -> (r: u16)
        ensures
            r == self.next,
    {
        self.next
    }

    /// Whether another segment follows this one.
    pub fn has_next(&self) -> (r: bool)
        ensures
            r == self.spec_has_next(),
    {
        self.flags & VIRTQ_DESC_F_NEXT != 0
    }

    /// Whether the device may only write, never read, this segment.
    pub fn is_write_only(&self) -> (r: bool)
        ensures
            r == self.spec_is_write_only(),
    {
        self.flags & VIRTQ_DESC_F_WRITE != 0
    }

    /// Whether this descriptor points at an indirect descriptor table.
    pub fn refers_to_indirect_table(&self) -> (r: bool)
        ensures
            r == self.spec_refers_to_indirect_table(),
    {
        self.flags & VIRTQ_DESC_F_INDIRECT != 0
    }
}

} // verus!
