//! The descriptor-chain walker.
//!
//! Given a chain head published by the guest, the walker follows the
//! descriptor table's linked-list encoding and yields one validated segment
//! per step. The guest controls every `next` pointer, so the walk carries a
//! hop budget seeded with the queue size: a malicious cycle terminates after
//! at most `queue_size` segments instead of hanging the device. A failed
//! memory access or an out-of-table index terminates the walk early; both
//! are normal outcomes, never faults.

use vstd::prelude::*;

use crate::defs::VIRTQ_DESCRIPTOR_SIZE;
use crate::descriptor::Descriptor;
use crate::guest_ram::GuestRam;

verus! {

/// Guest-physical address of descriptor-table entry `idx`.
pub open spec fn spec_desc_addr(table: u64, idx: u16) -> int {
    table + VIRTQ_DESCRIPTOR_SIZE * idx
}

/// The descriptor stored at table entry `idx`: 16 bytes, little-endian
/// fields `addr`, `len`, `flags`, `next`.
pub open spec fn spec_desc_at(ram: GuestRam, table: u64, idx: u16) -> Descriptor {
    let a = spec_desc_addr(table, idx);
    Descriptor {
        addr: ram.spec_u64_at(a),
        len: ram.spec_u32_at(a + 8),
        flags: ram.spec_u16_at(a + 12),
        next: ram.spec_u16_at(a + 14),
    }
}

/// The sequence of descriptors a walk yields from table entry `idx` with
/// `budget` hops left: empty once the budget is spent, the index leaves the
/// table, or the entry cannot be read; otherwise the entry itself followed
/// by the walk from its `next` pointer, ending at the first entry without
/// the has-next flag.
pub open spec fn spec_walk(
    ram: GuestRam,
    table: u64,
    qsize: u16,
    idx: u16,
    budget: u16,
) -> Seq<Descriptor>
    decreases budget,
{
    if budget == 0 || idx >= qsize || !ram.spec_readable(spec_desc_addr(table, idx), 16) {
        Seq::empty()
    } else {
        let d = spec_desc_at(ram, table, idx);
        if d.spec_has_next() {
            seq![d] + spec_walk(ram, table, qsize, d.next, (budget - 1) as u16)
        } else {
            seq![d]
        }
    }
}

/// A walk never yields more descriptors than its hop budget, whatever the
/// table holds: in particular a chain whose `next` pointers form a cycle
/// yields at most `budget` segments and then terminates.
pub proof fn lemma_walk_bounded(ram: GuestRam, table: u64, qsize: u16, idx: u16, budget: u16)
    ensures
        spec_walk(ram, table, qsize, idx, budget).len() <= budget,
    decreases budget,
{
    if budget == 0 || idx >= qsize || !ram.spec_readable(spec_desc_addr(table, idx), 16) {
    } else {
        let d = spec_desc_at(ram, table, idx);
        if d.spec_has_next() {
            lemma_walk_bounded(ram, table, qsize, d.next, (budget - 1) as u16);
        }
    }
}

/// Reads descriptor-table entry `idx`, or `None` if its 16 bytes do not lie
/// inside `ram`.
pub fn load_descriptor(ram: &GuestRam, table: u64, idx: u16) -> (r: Option<Descriptor>)
    ensures
        r == (if ram.spec_readable(spec_desc_addr(table, idx), 16) {
            Some(spec_desc_at(*ram, table, idx))
        } else {
            None::<Descriptor>
        }),
{
    let off: u64 = (idx as u64) * VIRTQ_DESCRIPTOR_SIZE;
    if table > u64::MAX - off {
        return None;
    }
    let addr: u64 = table + off;
    if !ram.check_range(addr, 16) {
        return None;
    }
    let daddr = match ram.load_u64(addr) {
        Some(v) => v,
        None => {
            return None;
        },
    };
    let dlen = match ram.load_u32(addr + 8) {
        Some(v) => v,
        None => {
            return None;
        },
    };
    let dflags = match ram.load_u16(addr + 12) {
        Some(v) => v,
        None => {
            return None;
        },
    };
    let dnext = match ram.load_u16(addr + 14) {
        Some(v) => v,
        None => {
            return None;
        },
    };
    Some(Descriptor { addr: daddr, len: dlen, flags: dflags, next: dnext })
}

/// A walk over one descriptor chain: a cursor into the descriptor table
/// plus the remaining hop budget. It borrows no memory; each step is handed
/// the guest-memory model it should read.
#[derive(Clone, Copy, Debug)]
pub struct DescriptorChain {
    /// Guest-physical address of the descriptor table.
    pub desc_table: u64,
    /// Number of entries in the descriptor table.
    pub queue_size: u16,
    /// The table index this chain started at; never changes over the walk.
    pub head_index: u16,
    /// The table index the next step will read.
    pub next_index: u16,
    /// Remaining hop budget; zero means the walk is exhausted.
    pub ttl: u16,
}

impl DescriptorChain {
    /// The descriptors the walk will still yield from its current cursor.
    pub open spec fn spec_rest(self, ram: GuestRam) -> Seq<Descriptor> {
        spec_walk(ram, self.desc_table, self.queue_size, self.next_index, self.ttl)
    }

    /// Starts a walk at table entry `head` with a hop budget of
    /// `queue_size`.
    pub fn new(desc_table: u64, queue_size: u16, head: u16) -> (r: DescriptorChain)
        ensures
            r == (DescriptorChain {
                desc_table,
                queue_size,
                head_index: head,
                next_index: head,
                ttl: queue_size,
            }),
    {
        DescriptorChain { desc_table, queue_size, head_index: head, next_index: head, ttl: queue_size }
    }

    /// The head index this chain was seeded with, independent of how far
    /// the walk has advanced; it keys the eventual used-ring completion.
    pub fn head_index(&self) -> (r: u16)
        ensures
            r == self.head_index,
    {
        self.head_index
    }

    /// Yields the next segment of the chain, or `None` once the walk is
    /// exhausted. Exhaustion is idempotent: once `None` is returned the
    /// cursor no longer moves and every further call returns `None`.
    pub fn next(&mut self, ram: &GuestRam) -> (r: Option<Descriptor>)
        ensures
            final(self).desc_table == old(self).desc_table,
            final(self).queue_size == old(self).queue_size,
            final(self).head_index == old(self).head_index,
            ({
                let w = old(self).spec_rest(*ram);
                &&& (w.len() == 0 ==> r is None && *final(self) == *old(self))
                &&& (w.len() > 0 ==> r == Some(w[0]) && final(self).spec_rest(*ram)
                    == w.drop_first())
            }),
    {
        if self.ttl == 0 || self.next_index >= self.queue_size {
            return None;
        }
        let d = match load_descriptor(ram, self.desc_table, self.next_index) {
            Some(d) => d,
            None => {
                return None;
            },
        };
        proof {
            let w = old(self).spec_rest(*ram);
            assert(w[0] == d);
        }
        if d.has_next() {
            self.next_index = d.next;
            self.ttl = self.ttl - 1;
            proof {
                let w = old(self).spec_rest(*ram);
                assert(w =~= seq![d] + final(self).spec_rest(*ram));
                assert(w.drop_first() =~= final(self).spec_rest(*ram));
            }
        } else {
            self.ttl = 0;
            proof {
                let w = old(self).spec_rest(*ram);
                assert(w =~= seq![d]);
                assert(w.drop_first() =~= final(self).spec_rest(*ram));
            }
        }
        Some(d)
    }

    /// The readable-only projection over this chain: a fresh cursor that
    /// replays the same walk and yields only the segments the device may
    /// read.
    pub fn readable(self) -> (r: DescriptorChainRwIter)
        ensures
            r == (DescriptorChainRwIter { chain: self, writable: false }),
    {
        DescriptorChainRwIter { chain: self, writable: false }
    }

    /// The writable-only projection over this chain: a fresh cursor that
    /// replays the same walk and yields only the segments the device may
    /// write.
    pub fn writable(self) -> (r: DescriptorChainRwIter)
        ensures
            r == (DescriptorChainRwIter { chain: self, writable: true }),
    {
        DescriptorChainRwIter { chain: self, writable: true }
    }
}

/// The subsequence of `s` whose direction matches `writable`: the write-only
/// descriptors when `writable` is set, the readable ones otherwise, in walk
/// order.
pub open spec fn dir_filter(s: Seq<Descriptor>, writable: bool) -> Seq<Descriptor>
    decreases s.len(),
{
    if s.len() == 0 {
        Seq::empty()
    } else if s[0].spec_is_write_only() == writable {
        seq![s[0]] + dir_filter(s.drop_first(), writable)
    } else {
        dir_filter(s.drop_first(), writable)
    }
}

/// Together the two projections cover the walk: every segment of a chain
/// appears in exactly one of the writable-only and the readable-only
/// subsequences.
pub proof fn lemma_projections_partition(s: Seq<Descriptor>)
    ensures
        dir_filter(s, true).len() + dir_filter(s, false).len() == s.len(),
    decreases s.len(),
{
    if s.len() == 0 {
    } else {
        lemma_projections_partition(s.drop_first());
    }
}

/// A direction-filtered walk over one descriptor chain. It owns its own
/// cursor copy, so a half-consumed generic walk and a half-consumed filtered
/// walk never interfere.
#[derive(Clone, Copy, Debug)]
pub struct DescriptorChainRwIter {
    /// The underlying walk being filtered.
    pub chain: DescriptorChain,
    /// Which direction this projection keeps.
    pub writable: bool,
}

impl DescriptorChainRwIter {
    /// Yields the next segment of the chain whose direction matches this
    /// projection, or `None` once none is left. The yielded segments are
    /// exactly the direction-matching subsequence of the generic walk, in
    /// walk order, and exhaustion is idempotent.
    pub fn next(&mut self, ram: &GuestRam) -> (r: Option<Descriptor>)
        ensures
            final(self).writable == old(self).writable,
            final(self).chain.desc_table == old(self).chain.desc_table,
            final(self).chain.queue_size == old(self).chain.queue_size,
            final(self).chain.head_index == old(self).chain.head_index,
            ({
                let f = dir_filter(old(self).chain.spec_rest(*ram), old(self).writable);
                &&& (f.len() == 0 ==> r is None && dir_filter(
                    final(self).chain.spec_rest(*ram),
                    old(self).writable,
                ).len() == 0)
                &&& (f.len() > 0 ==> r == Some(f[0]) && dir_filter(
                    final(self).chain.spec_rest(*ram),
                    old(self).writable,
                ) == f.drop_first())
            }),
    {
        loop
            invariant
                self.writable == old(self).writable,
                self.chain.desc_table == old(self).chain.desc_table,
                self.chain.queue_size == old(self).chain.queue_size,
                self.chain.head_index == old(self).chain.head_index,
                dir_filter(self.chain.spec_rest(*ram), old(self).writable) == dir_filter(
                    old(self).chain.spec_rest(*ram),
                    old(self).writable,
                ),
            decreases self.chain.spec_rest(*ram).len(),
        {
            let ghost w_before = self.chain.spec_rest(*ram);
            match self.chain.next(ram) {
                None => {
                    return None;
                },
                Some(d) => {
                    proof {
                        assert(w_before.len() > 0);
                        assert(d == w_before[0]);
                        assert(self.chain.spec_rest(*ram) == w_before.drop_first());
                    }
                    if d.is_write_only() == self.writable {
                        proof {
                            let t = dir_filter(w_before.drop_first(), old(self).writable);
                            assert(dir_filter(w_before, old(self).writable) == seq![d] + t);
                            assert((seq![d] + t).drop_first() =~= t);
                            assert((seq![d] + t)[0] == d);
                        }
                        return Some(d);
                    }
                },
            }
        }
    }
}

} // verus!
