//! Protocol constants of the split virtqueue wire format.
//!
//! These are fixed by the split-ring wire format, not configurable: a
//! descriptor-table entry is 16 bytes; the available ring is
//! a 4-byte header (`flags`, `idx`) followed by one 2-byte element per slot
//! and a trailing 2-byte `used_event`; the used ring is a 4-byte header
//! followed by one 8-byte element per slot and a trailing 2-byte
//! `avail_event`.

use vstd::prelude::*;

verus! {

/// Byte size of one descriptor-table entry.
pub const VIRTQ_DESCRIPTOR_SIZE: u64 = 16;

/// Byte size of the available ring's header (`flags` and `idx`).
pub const VIRTQ_AVAIL_RING_HEADER_SIZE: u64 = 4;

/// Byte size of the available ring outside its elements (header plus the
/// trailing `used_event` field).
pub const VIRTQ_AVAIL_RING_META_SIZE: u64 = 6;

/// Byte size of one available-ring element (a chain head index).
pub const VIRTQ_AVAIL_ELEMENT_SIZE: u64 = 2;

/// Byte size of the used ring outside its elements (header plus the trailing
/// `avail_event` field).
pub const VIRTQ_USED_RING_META_SIZE: u64 = 6;

/// Byte size of one used-ring element.
pub const VIRTQ_USED_ELEMENT_SIZE: u64 = 8;

/// Descriptor flag: the `next` field links to a further descriptor.
pub const VIRTQ_DESC_F_NEXT: u16 = 1;

/// Descriptor flag: the buffer is write-only for the device.
pub const VIRTQ_DESC_F_WRITE: u16 = 2;

/// Descriptor flag: the buffer holds an indirect descriptor table.
pub const VIRTQ_DESC_F_INDIRECT: u16 = 4;

} // verus!
