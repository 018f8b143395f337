//! The available-ring iterator: discovery of guest-published chain heads.
//!
//! The guest bumps a published index in the ring header after writing chain
//! head indices into the ring's slots. The device scans the slots between
//! its own cursor (`next_avail` in the queue state) and a snapshot of the
//! published index taken at construction time — not re-read per step, so a
//! guest racing ahead cannot cause unbounded or inconsistent iteration.
//! Both indices are 16-bit wrapping counters; equality, not ordering,
//! terminates the scan.

use vstd::arithmetic::div_mod::lemma_add_mod_noop;
use vstd::arithmetic::div_mod::lemma_mod_division_less_than_divisor;
use vstd::arithmetic::div_mod::lemma_small_mod;
use vstd::prelude::*;

use crate::chain::DescriptorChain;
use crate::defs::VIRTQ_AVAIL_RING_HEADER_SIZE;
use crate::defs::VIRTQ_AVAIL_ELEMENT_SIZE;
use crate::guest_ram::GuestRam;
use crate::queue::QueueState;

verus! {

/// `x + 1` on a 16-bit wrapping counter.
pub open spec fn spec_inc16(x: u16) -> u16 {
    if x == 0xFFFF {
        0
    } else {
        (x + 1) as u16
    }
}

/// `x - 1` on a 16-bit wrapping counter.
pub open spec fn spec_dec16(x: u16) -> u16 {
    if x == 0 {
        0xFFFF
    } else {
        (x - 1) as u16
    }
}

/// `x + k` on a 16-bit wrapping counter.
pub open spec fn spec_add16(x: u16, k: int) -> u16 {
    ((x + k) % 0x10000) as u16
}

/// Consuming iterator over the chain heads the guest has published and the
/// device has not yet consumed.
///
/// It snapshots the queue's configuration and the published index at
/// construction; the cursor itself stays in the `QueueState`, which each
/// step takes exclusively (`&mut`), keeping to the single-writer discipline:
/// one consumer at a time advances a queue's cursor.
#[derive(Clone, Copy, Debug)]
pub struct AvailIter {
    /// Guest-physical address of the descriptor table, for seeding chains.
    pub desc_table: u64,
    /// Guest-physical address of the available ring.
    pub avail_ring: u64,
    /// Number of ring slots; the cursor is reduced modulo this.
    pub queue_size: u16,
    /// Snapshot of the guest-published index taken at construction.
    pub last_index: u16,
}

impl AvailIter {
    /// How many heads are still to be yielded from cursor `na`:
    /// `(last_index - na) mod 2^16`.
    pub open spec fn spec_remaining(self, na: u16) -> nat {
        if na <= self.last_index {
            (self.last_index - na) as nat
        } else {
            (0x10000 - na + self.last_index) as nat
        }
    }

    /// Guest-physical address of the ring slot the cursor `na` selects:
    /// past the ring header, at the cursor reduced modulo the queue size.
    pub open spec fn spec_slot_addr(self, na: u16) -> int {
        self.avail_ring + VIRTQ_AVAIL_RING_HEADER_SIZE + VIRTQ_AVAIL_ELEMENT_SIZE * (
        (na as int) % (self.queue_size as int))
    }

    /// The ring slot of cursor `na` can be read.
    pub open spec fn spec_slot_readable(self, ram: GuestRam, na: u16) -> bool {
        self.queue_size > 0 && ram.spec_readable(self.spec_slot_addr(na), 2)
    }

    /// The chain head stored in the ring slot of cursor `na`.
    pub open spec fn spec_head_at(self, ram: GuestRam, na: u16) -> u16 {
        ram.spec_u16_at(self.spec_slot_addr(na))
    }

    /// The heads this iterator yields from cursor `na` on: one per cursor
    /// value up to the snapshot, read from the cursor's ring slot, cut
    /// short at the first slot that cannot be read.
    pub open spec fn spec_heads(self, ram: GuestRam, na: u16) -> Seq<u16>
        decreases self.spec_remaining(na),
    {
        if self.spec_remaining(na) == 0 || !self.spec_slot_readable(ram, na) {
            Seq::empty()
        } else {
            seq![self.spec_head_at(ram, na)] + self.spec_heads(ram, spec_inc16(na))
        }
    }

    /// Snapshots a queue's configuration together with the published index
    /// `idx` the caller has read.
    pub fn new(idx: u16, state: &QueueState) -> (r: AvailIter)
        ensures
            r == (AvailIter {
                desc_table: state.desc_table,
                avail_ring: state.avail_ring,
                queue_size: state.size,
                last_index: idx,
            }),
    {
        AvailIter {
            desc_table: state.desc_table,
            avail_ring: state.avail_ring,
            queue_size: state.size,
            last_index: idx,
        }
    }

    /// Produces the next chain head, seeded into a fresh walker, advancing
    /// the queue's cursor by one; `None`, with the cursor untouched, once
    /// the cursor has reached the snapshot or when the ring slot cannot be
    /// read.
    pub fn next(&self, state: &mut QueueState, ram: &GuestRam) -> (r: Option<DescriptorChain>)
        ensures
            ({
                let hs = self.spec_heads(*ram, old(state).next_avail);
                &&& (hs.len() == 0 ==> r is None && *final(state) == *old(state))
                &&& (hs.len() > 0 ==> {
                    &&& r == Some(DescriptorChain {
                        desc_table: self.desc_table,
                        queue_size: self.queue_size,
                        head_index: hs[0],
                        next_index: hs[0],
                        ttl: self.queue_size,
                    })
                    &&& *final(state) == (QueueState {
                        next_avail: spec_inc16(old(state).next_avail),
                        ..*old(state)
                    })
                    &&& self.spec_heads(*ram, final(state).next_avail) == hs.drop_first()
                })
            }),
    {
        if state.next_avail == self.last_index {
            return None;
        }
        if self.queue_size == 0 {
            return None;
        }
        let slot: u16 = state.next_avail % self.queue_size;
        let off: u64 = VIRTQ_AVAIL_RING_HEADER_SIZE + VIRTQ_AVAIL_ELEMENT_SIZE * (slot as u64);
        if self.avail_ring > u64::MAX - off {
            return None;
        }
        let addr: u64 = self.avail_ring + off;
        let head = match ram.load_u16(addr) {
            Some(h) => h,
            None => {
                return None;
            },
        };
        let ghost na0 = state.next_avail;
        proof {
            let hs = self.spec_heads(*ram, na0);
            assert(hs[0] == head);
            assert(hs.drop_first() =~= self.spec_heads(*ram, spec_inc16(na0)));
        }
        state.next_avail = if state.next_avail == 0xFFFF {
            0
        } else {
            state.next_avail + 1
        };
        Some(DescriptorChain::new(self.desc_table, self.queue_size, head))
    }

    /// Goes back one position: the device-side pushback for a head the
    /// backend cannot process yet.
    ///
    /// The underlying scan is not bidirectional; decrementing the wrapping
    /// cursor is the only way to undo one advancement. Call it only after a
    /// successful yield and only from the single thread manipulating the
    /// queue: stepping back past the starting cursor, or while another
    /// consumer is in flight, is the caller's misuse, not defended against
    /// here.
    pub fn go_to_previous_position(&self, state: &mut QueueState)
        ensures
            *final(state) == (QueueState {
                next_avail: spec_dec16(old(state).next_avail),
                ..*old(state)
            }),
    {
        state.next_avail = if state.next_avail == 0 {
            0xFFFF
        } else {
            state.next_avail - 1
        };
    }
}

/// An available-ring iterator over a queue that fails validation produces
/// an empty sequence of chain heads: its published-index snapshot equals
/// the queue's cursor, so nothing remains to yield.
pub proof fn lemma_invalid_queue_yields_nothing(st: QueueState, ram: GuestRam)
    requires
        !st.spec_valid(ram),
    ensures
        st.spec_iter(ram).spec_remaining(st.next_avail) == 0,
        st.spec_iter(ram).spec_heads(ram, st.next_avail) == Seq::<u16>::empty(),
{
}

/// Stepping the cursor back one position exactly undoes one advancement:
/// after a yield (which moves the cursor from `na` to `na + 1`) and a step
/// back, the cursor is `na` again, so a freshly constructed iterator over
/// the same queue state and memory yields the same first head.
pub proof fn lemma_step_back_round_trip(it: AvailIter, ram: GuestRam, na: u16)
    ensures
        spec_dec16(spec_inc16(na)) == na,
        it.spec_heads(ram, spec_dec16(spec_inc16(na))) == it.spec_heads(ram, na),
{
}

/// With every ring slot readable, the head sequence from cursor `na` has
/// exactly `spec_remaining(na)` entries, the `j`-th read from the ring slot
/// of cursor `na + j` (mod 2^16), in ring order.
proof fn lemma_heads_from(it: AvailIter, ram: GuestRam, na: u16)
    requires
        it.queue_size > 0,
        forall|m: u16| ram.spec_readable(it.spec_slot_addr(m), 2),
    ensures
        it.spec_heads(ram, na).len() == it.spec_remaining(na),
        forall|j: int|
            0 <= j < it.spec_remaining(na) ==> it.spec_heads(ram, na)[j] == it.spec_head_at(
                ram,
                spec_add16(na, j),
            ),
    decreases it.spec_remaining(na),
{
    if it.spec_remaining(na) == 0 {
    } else {
        assert(ram.spec_readable(it.spec_slot_addr(na), 2));
        let nb = spec_inc16(na);
        lemma_heads_from(it, ram, nb);
        let hs = it.spec_heads(ram, na);
        let tl = it.spec_heads(ram, nb);
        assert(hs == seq![it.spec_head_at(ram, na)] + tl);
        assert(nb as int == (na + 1) % 0x10000) by {
            if na != 0xFFFF {
                lemma_small_mod((na + 1) as nat, 0x10000);
            }
        }
        assert forall|j: int|
            0 <= j < it.spec_remaining(na) implies hs[j] == it.spec_head_at(
            ram,
            spec_add16(na, j),
        ) by {
            if j == 0 {
                lemma_small_mod(na as nat, 0x10000);
                assert(spec_add16(na, 0) == na);
                assert(hs[0] == it.spec_head_at(ram, na));
            } else {
                assert(hs[j] == tl[j - 1]);
                assert(tl[j - 1] == it.spec_head_at(ram, spec_add16(nb, j - 1)));
                assert(spec_add16(nb, j - 1) == spec_add16(na, j)) by {
                    lemma_small_mod((j - 1) as nat, 0x10000);
                    lemma_add_mod_noop(na + 1, j - 1, 0x10000);
                }
            }
        }
    }
}

/// For a valid queue with published count `C` and cursor `N`, the iterator
/// yields exactly `(C − N) mod 2^16` chain heads, the `j`-th being the head
/// index stored at the ring slot of cursor `N + j`, in ring order; each
/// yield advances the cursor by one and the sequence is empty exactly when
/// the cursor has reached `C`, so draining the iterator leaves the cursor
/// at `C`.
pub proof fn lemma_iter_yields_published(st: QueueState, ram: GuestRam)
    requires
        st.spec_valid(ram),
    ensures
        st.spec_iter(ram).last_index == ram.spec_u16_at(st.avail_ring + 2),
        st.spec_iter(ram).spec_heads(ram, st.next_avail).len() == 0 <==> st.next_avail
            == st.spec_iter(ram).last_index,
        st.spec_iter(ram).spec_heads(ram, st.next_avail).len() == st.spec_iter(
            ram,
        ).spec_remaining(st.next_avail),
        forall|j: int|
            0 <= j < st.spec_iter(ram).spec_remaining(st.next_avail) ==> st.spec_iter(
                ram,
            ).spec_heads(ram, st.next_avail)[j] == st.spec_iter(ram).spec_head_at(
                ram,
                spec_add16(st.next_avail, j),
            ),
{
    let it = st.spec_iter(ram);
    assert forall|m: u16| ram.spec_readable(it.spec_slot_addr(m), 2) by {
        lemma_mod_division_less_than_divisor(m as int, it.queue_size as int);
    }
    lemma_heads_from(it, ram, st.next_avail);
}

} // verus!

