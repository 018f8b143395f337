//! The queue's configuration and runtime cursor, and the validity gate.
//!
//! A queue is configured by external plumbing (addresses, negotiated size,
//! readiness) and advanced only through the available-ring iterator. The
//! validity gate checks that the configuration is consistent with the guest
//! memory bounds before any iteration is permitted; an inconsistent queue is
//! a normal, expected condition answered with `false`, never an error.

use vstd::prelude::*;

use crate::defs::VIRTQ_AVAIL_RING_META_SIZE;
use crate::defs::VIRTQ_AVAIL_ELEMENT_SIZE;
use crate::defs::VIRTQ_DESCRIPTOR_SIZE;
use crate::defs::VIRTQ_USED_ELEMENT_SIZE;
use crate::defs::VIRTQ_USED_RING_META_SIZE;
use crate::guest_ram::GuestRam;
use crate::iterator::AvailIter;

verus! {

/// Configuration and runtime cursor of one virtqueue.
#[derive(Clone, Copy, Debug, PartialEq, Eq, Structural)]
pub struct QueueState {
    /// Guest-physical address of the descriptor table.
    pub desc_table: u64,
    /// Guest-physical address of the available ring.
    pub avail_ring: u64,
    /// Guest-physical address of the used ring.
    pub used_ring: u64,
    /// Negotiated queue size: number of descriptor-table entries and ring
    /// slots.
    pub size: u16,
    /// Largest size the device supports for this queue.
    pub max_size: u16,
    /// Whether the driver has activated the queue.
    pub ready: bool,
    /// Cursor of the next available-ring slot the device has not yet
    /// consumed; a 16-bit wrapping counter.
    pub next_avail: u16,
}

impl QueueState {
    /// The queue's configuration is consistent: activated, with a size that
    /// is a nonzero power of two within the device's maximum, and with all
    /// three ring structures lying inside the guest memory bounds.
    pub open spec fn spec_valid(self, ram: GuestRam) -> bool {
        &&& self.ready
        &&& self.size > 0
        &&& self.size <= self.max_size
        &&& (self.size & (self.size - 1) as u16) == 0
        &&& ram.spec_readable(
            self.desc_table as int,
            VIRTQ_DESCRIPTOR_SIZE * (self.size as int),
        )
        &&& ram.spec_readable(
            self.avail_ring as int,
            VIRTQ_AVAIL_RING_META_SIZE + VIRTQ_AVAIL_ELEMENT_SIZE * (self.size as int),
        )
        &&& ram.spec_readable(
            self.used_ring as int,
            VIRTQ_USED_RING_META_SIZE + VIRTQ_USED_ELEMENT_SIZE * (self.size as int),
        )
    }

    /// The validity gate: decides `spec_valid`, with no side effects.
    pub fn is_valid(&self, ram: &GuestRam) -> (r: bool)
        ensures
            r == self.spec_valid(*ram),
    {
        self.ready && self.size > 0 && self.size <= self.max_size && (self.size & (self.size
            - 1)) == 0 && ram.check_range(
            self.desc_table,
            VIRTQ_DESCRIPTOR_SIZE * (self.size as u64),
        ) && ram.check_range(
            self.avail_ring,
            VIRTQ_AVAIL_RING_META_SIZE + VIRTQ_AVAIL_ELEMENT_SIZE * (self.size as u64),
        ) && ram.check_range(
            self.used_ring,
            VIRTQ_USED_RING_META_SIZE + VIRTQ_USED_ELEMENT_SIZE * (self.size as u64),
        )
    }

    /// Reads the guest-published available index: the 16-bit count stored
    /// in the ring header at `avail_ring + 2`, bounds-checked.
    pub fn avail_idx(&self, ram: &GuestRam) -> (r: Option<u16>)
        ensures
            r == (if ram.spec_readable(self.avail_ring + 2, 2) {
                Some(ram.spec_u16_at(self.avail_ring + 2))
            } else {
                None::<u16>
            }),
    {
        if self.avail_ring > u64::MAX - 2 {
            return None;
        }
        ram.load_u16(self.avail_ring + 2)
    }

    /// The iterator `iter` constructs: its published-count snapshot is the
    /// ring's index field when the queue is valid, and the queue's own
    /// cursor — an exhausted iterator — when it is not.
    pub open spec fn spec_iter(self, ram: GuestRam) -> AvailIter {
        AvailIter {
            desc_table: self.desc_table,
            avail_ring: self.avail_ring,
            queue_size: self.size,
            last_index: if self.spec_valid(ram) {
                ram.spec_u16_at(self.avail_ring + 2)
            } else {
                self.next_avail
            },
        }
    }

    /// Constructs the available-ring iterator over this queue, reading the
    /// guest-published index once. If the queue fails validation the
    /// snapshot equals the cursor, so the iterator produces nothing.
    pub fn iter(&self, ram: &GuestRam) -> (r: AvailIter)
        ensures
            r == self.spec_iter(*ram),
    {
        if self.is_valid(ram) {
            proof {
                assert(ram.spec_readable(self.avail_ring + 2, 2));
            }
            match self.avail_idx(ram) {
                Some(idx) => AvailIter::new(idx, self),
                None => AvailIter::new(self.next_avail, self),
            }
        } else {
            AvailIter::new(self.next_avail, self)
        }
    }
}

} // verus!
