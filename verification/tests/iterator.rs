use virtio_queue::defs::VIRTQ_DESC_F_NEXT;
use virtio_queue::defs::VIRTQ_DESC_F_WRITE;
use virtio_queue::AvailIter;
use virtio_queue::Descriptor;
use virtio_queue::DescriptorChain;
use virtio_queue::GuestRam;
use virtio_queue::QueueState;

const DESC_TABLE: u64 = 0x100;
const AVAIL_RING: u64 = 0x1000;
const USED_RING: u64 = 0x2000;

fn new_ram() -> GuestRam {
    GuestRam { base: 0, bytes: vec![0u8; 0x10000] }
}

fn new_queue(size: u16) -> QueueState {
    QueueState {
        desc_table: DESC_TABLE,
        avail_ring: AVAIL_RING,
        used_ring: USED_RING,
        size,
        max_size: size,
        ready: true,
        next_avail: 0,
    }
}

fn store_u16(ram: &mut GuestRam, addr: u64, v: u16) {
    let i = (addr - ram.base) as usize;
    ram.bytes[i..i + 2].copy_from_slice(&v.to_le_bytes());
}

fn store_desc(ram: &mut GuestRam, table: u64, idx: u16, d: &Descriptor) {
    let i = (table + 16 * idx as u64 - ram.base) as usize;
    ram.bytes[i..i + 8].copy_from_slice(&d.addr.to_le_bytes());
    ram.bytes[i + 8..i + 12].copy_from_slice(&d.len.to_le_bytes());
    ram.bytes[i + 12..i + 14].copy_from_slice(&d.flags.to_le_bytes());
    ram.bytes[i + 14..i + 16].copy_from_slice(&d.next.to_le_bytes());
}

fn store_avail_head(ram: &mut GuestRam, slot: u16, head: u16) {
    store_u16(ram, AVAIL_RING + 4 + 2 * slot as u64, head);
}

fn store_avail_idx(ram: &mut GuestRam, idx: u16) {
    store_u16(ram, AVAIL_RING + 2, idx);
}

#[test]
fn test_descriptor_and_iterator() {
    let mut ram = new_ram();
    let mut q = new_queue(16);

    // q is currently valid
    assert!(q.is_valid(&ram));

    // the chains are (0, 1), (2, 3, 4) and (5, 6)
    for j in 0..7u16 {
        let flags = match j {
            1 | 6 => 0,
            2 | 5 => VIRTQ_DESC_F_NEXT | VIRTQ_DESC_F_WRITE,
            _ => VIRTQ_DESC_F_NEXT,
        };

        let desc = Descriptor::new(0x1000 * (j as u64 + 1), 0x1000, flags, j + 1);
        store_desc(&mut ram, DESC_TABLE, j, &desc);
    }

    store_avail_head(&mut ram, 0, 0);
    store_avail_head(&mut ram, 1, 2);
    store_avail_head(&mut ram, 2, 5);
    store_avail_idx(&mut ram, 3);

    let i = q.iter(&ram);

    {
        let c = i.next(&mut q, &ram).unwrap();
        assert_eq!(c.head_index(), 0);

        let mut iter = c;
        assert!(iter.next(&ram).is_some());
        assert!(iter.next(&ram).is_some());
        assert!(iter.next(&ram).is_none());
        assert!(iter.next(&ram).is_none());
    }

    {
        let c = i.next(&mut q, &ram).unwrap();
        assert_eq!(c.head_index(), 2);

        let mut iter = c.writable();
        assert!(iter.next(&ram).is_some());
        assert!(iter.next(&ram).is_some());
        assert!(iter.next(&ram).is_none());
        assert!(iter.next(&ram).is_none());
    }

    {
        let c = i.next(&mut q, &ram).unwrap();
        assert_eq!(c.head_index(), 5);

        let mut iter = c.readable();
        assert!(iter.next(&ram).is_some());
        assert!(iter.next(&ram).is_none());
        assert!(iter.next(&ram).is_none());
    }
}

#[test]
fn test_iterator() {
    let mut ram = new_ram();
    let mut q = new_queue(16);

    assert!(q.is_valid(&ram));

    {
        // an invalid queue should return an iterator with no next
        q.ready = false;
        let i = q.iter(&ram);
        assert!(i.next(&mut q, &ram).is_none());
    }

    q.ready = true;

    // now let's create two simple descriptor chains
    // the chains are (0, 1) and (2, 3, 4)
    {
        for j in 0..5u16 {
            let flags = match j {
                1 | 4 => 0,
                _ => VIRTQ_DESC_F_NEXT,
            };

            let desc = Descriptor::new(0x1000 * (j as u64 + 1), 0x1000, flags, j + 1);
            store_desc(&mut ram, DESC_TABLE, j, &desc);
        }

        store_avail_head(&mut ram, 0, 0);
        store_avail_head(&mut ram, 1, 2);
        store_avail_idx(&mut ram, 2);

        let i = q.iter(&ram);

        {
            let mut c = i.next(&mut q, &ram).unwrap();
            assert_eq!(c.head_index(), 0);

            c.next(&ram).unwrap();
            assert!(c.next(&ram).is_some());
            assert!(c.next(&ram).is_none());
            assert_eq!(c.head_index(), 0);
        }

        {
            let mut c = i.next(&mut q, &ram).unwrap();
            assert_eq!(c.head_index(), 2);

            c.next(&ram).unwrap();
            c.next(&ram).unwrap();
            c.next(&ram).unwrap();
            assert!(c.next(&ram).is_none());
            assert_eq!(c.head_index(), 2);
        }

        // also test go_to_previous_position() works as expected
        {
            assert!(i.next(&mut q, &ram).is_none());
            i.go_to_previous_position(&mut q);
            let mut c = q.iter(&ram).next(&mut q, &ram).unwrap();
            c.next(&ram).unwrap();
            c.next(&ram).unwrap();
            c.next(&ram).unwrap();
            assert!(c.next(&ram).is_none());
        }
    }
}

#[test]
fn test_validity_gate() {
    let ram = new_ram();

    assert!(new_queue(16).is_valid(&ram));

    let mut q = new_queue(16);
    q.ready = false;
    assert!(!q.is_valid(&ram));

    q = new_queue(0);
    assert!(!q.is_valid(&ram));

    // 6 is not a power of two
    q = new_queue(6);
    assert!(!q.is_valid(&ram));

    q = new_queue(16);
    q.size = 32;
    assert!(!q.is_valid(&ram));

    // each ring structure must fit inside guest memory
    q = new_queue(16);
    q.desc_table = 0xFFF8;
    assert!(!q.is_valid(&ram));

    q = new_queue(16);
    q.avail_ring = 0xFFF8;
    assert!(!q.is_valid(&ram));

    q = new_queue(16);
    q.used_ring = 0xFFF8;
    assert!(!q.is_valid(&ram));
}

#[test]
fn test_invalid_queue_yields_nothing() {
    let mut ram = new_ram();
    let mut q = new_queue(16);

    // the guest has published two chain heads, but the queue is not ready
    store_avail_head(&mut ram, 0, 0);
    store_avail_head(&mut ram, 1, 2);
    store_avail_idx(&mut ram, 2);
    q.ready = false;

    assert!(!q.is_valid(&ram));
    let i = q.iter(&ram);
    assert!(i.next(&mut q, &ram).is_none());
    assert_eq!(q.next_avail, 0);
}

#[test]
fn test_iterator_counts_and_wraps() {
    let mut ram = new_ram();
    let mut q = new_queue(16);

    // published count 1, cursor 0xFFFE: (1 - 0xFFFE) mod 2^16 = 3 heads,
    // taken from ring slots 14, 15 and 0
    q.next_avail = 0xFFFE;
    store_avail_head(&mut ram, 14, 7);
    store_avail_head(&mut ram, 15, 8);
    store_avail_head(&mut ram, 0, 9);
    store_avail_idx(&mut ram, 1);

    let i = q.iter(&ram);
    assert_eq!(i.next(&mut q, &ram).unwrap().head_index(), 7);
    assert_eq!(q.next_avail, 0xFFFF);
    assert_eq!(i.next(&mut q, &ram).unwrap().head_index(), 8);
    assert_eq!(q.next_avail, 0);
    assert_eq!(i.next(&mut q, &ram).unwrap().head_index(), 9);
    assert_eq!(q.next_avail, 1);
    assert!(i.next(&mut q, &ram).is_none());
    assert_eq!(q.next_avail, 1);
}

#[test]
fn test_go_to_previous_position_reproduces_head() {
    let mut ram = new_ram();
    let mut q = new_queue(16);

    store_desc(&mut ram, DESC_TABLE, 3, &Descriptor::new(0x3000, 0x100, 0, 0));
    store_avail_head(&mut ram, 0, 3);
    store_avail_idx(&mut ram, 1);

    let i = q.iter(&ram);
    let first = i.next(&mut q, &ram).unwrap().head_index();
    assert_eq!(first, 3);
    assert_eq!(q.next_avail, 1);

    i.go_to_previous_position(&mut q);
    assert_eq!(q.next_avail, 0);

    let again = q.iter(&ram).next(&mut q, &ram).unwrap().head_index();
    assert_eq!(again, first);
}

#[test]
fn test_memory_failure_terminates_iteration() {
    let ram = new_ram();
    let mut q = new_queue(16);

    // the ring lies outside guest memory: the slot read fails, so the
    // sequence ends without advancing the cursor
    q.avail_ring = 0xFFFF_0000;
    let i = AvailIter::new(5, &q);
    assert!(i.next(&mut q, &ram).is_none());
    assert_eq!(q.next_avail, 0);
}

#[test]
fn test_two_segment_chain_exhausts() {
    let mut ram = new_ram();

    store_desc(&mut ram, DESC_TABLE, 0, &Descriptor::new(0x1000, 0x200, VIRTQ_DESC_F_NEXT, 1));
    store_desc(&mut ram, DESC_TABLE, 1, &Descriptor::new(0x2000, 0, 0, 0));

    let mut c = DescriptorChain::new(DESC_TABLE, 16, 0);
    assert_eq!(c.head_index(), 0);

    let d0 = c.next(&ram).unwrap();
    assert_eq!(d0.addr(), 0x1000);
    assert_eq!(d0.len(), 0x200);
    assert!(d0.has_next());

    // a zero-length segment is legal and must be surfaced
    let d1 = c.next(&ram).unwrap();
    assert_eq!(d1.addr(), 0x2000);
    assert_eq!(d1.len(), 0);
    assert!(!d1.has_next());

    // exhaustion is idempotent
    assert!(c.next(&ram).is_none());
    assert!(c.next(&ram).is_none());
    assert_eq!(c.head_index(), 0);
}

#[test]
fn test_chain_cycle_is_capped() {
    let mut ram = new_ram();

    // 0 -> 1 -> 0: the hop budget caps the walk at queue_size segments
    store_desc(&mut ram, DESC_TABLE, 0, &Descriptor::new(0x1000, 0x100, VIRTQ_DESC_F_NEXT, 1));
    store_desc(&mut ram, DESC_TABLE, 1, &Descriptor::new(0x2000, 0x100, VIRTQ_DESC_F_NEXT, 0));

    let mut c = DescriptorChain::new(DESC_TABLE, 16, 0);
    let mut yielded = 0u32;
    while c.next(&ram).is_some() {
        yielded += 1;
        assert!(yielded <= 16);
    }
    assert_eq!(yielded, 16);
    assert!(c.next(&ram).is_none());
}

#[test]
fn test_out_of_table_next_truncates_chain() {
    let mut ram = new_ram();

    // the next pointer leaves the 16-entry table: the chain is truncated
    store_desc(&mut ram, DESC_TABLE, 0, &Descriptor::new(0x1000, 0x100, VIRTQ_DESC_F_NEXT, 200));

    let mut c = DescriptorChain::new(DESC_TABLE, 16, 0);
    assert!(c.next(&ram).is_some());
    assert!(c.next(&ram).is_none());
}

#[test]
fn test_directional_projections() {
    let mut ram = new_ram();

    // chain (2, 3, 4): 2 and 3 write-only with has-next, 4 read-only terminal
    store_desc(
        &mut ram,
        DESC_TABLE,
        2,
        &Descriptor::new(0x2000, 0x100, VIRTQ_DESC_F_NEXT | VIRTQ_DESC_F_WRITE, 3),
    );
    store_desc(
        &mut ram,
        DESC_TABLE,
        3,
        &Descriptor::new(0x3000, 0x100, VIRTQ_DESC_F_NEXT | VIRTQ_DESC_F_WRITE, 4),
    );
    store_desc(&mut ram, DESC_TABLE, 4, &Descriptor::new(0x4000, 0x100, 0, 0));

    let c = DescriptorChain::new(DESC_TABLE, 16, 2);

    let mut w = c.writable();
    assert_eq!(w.next(&ram).unwrap().addr(), 0x2000);
    assert_eq!(w.next(&ram).unwrap().addr(), 0x3000);
    assert!(w.next(&ram).is_none());
    assert!(w.next(&ram).is_none());

    let mut r = c.readable();
    assert_eq!(r.next(&ram).unwrap().addr(), 0x4000);
    assert!(r.next(&ram).is_none());
    assert!(r.next(&ram).is_none());
}

#[test]
fn test_little_endian_loads() {
    let mut ram = GuestRam { base: 0x40, bytes: vec![0u8; 16] };
    ram.bytes = vec![
        0x01, 0x02, 0x03, 0x04, 0x05, 0x06, 0x07, 0x08, 0x09, 0x0A, 0x0B, 0x0C, 0x0D, 0x0E, 0x0F,
        0x10,
    ];

    assert_eq!(ram.load_u8(0x40), Some(0x01));
    assert_eq!(ram.load_u16(0x40), Some(0x0201));
    assert_eq!(ram.load_u32(0x40), Some(0x04030201));
    assert_eq!(ram.load_u64(0x40), Some(0x0807060504030201));
    assert_eq!(ram.load_u64(0x48), Some(0x100F0E0D0C0B0A09));

    // out of range on either side
    assert_eq!(ram.load_u16(0x3F), None);
    assert_eq!(ram.load_u16(0x4F), None);
    assert_eq!(ram.load_u64(0x49), None);
    assert!(ram.check_range(0x40, 16));
    assert!(!ram.check_range(0x40, 17));
}
