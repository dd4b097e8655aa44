use tifflin_modules::virtio::queue::{get_first_size, get_alloc_size, queue_pages, DescriptorTable, AvailRing, QueueIntState, UsedElem, NO_RESULT, VRING_DESC_F_NEXT, VRING_DESC_F_WRITE};

#[test]
fn queue_sizes_round_to_pages() {
    // 16 entries: 256 bytes of descriptors, 38 bytes of available ring
    assert_eq!(get_first_size(16), 0x1000);
    // 256 entries: 4096 + 518 bytes
    assert_eq!(get_first_size(256), 0x2000);
    assert_eq!(get_alloc_size(16), 0x2000);
    assert_eq!(get_alloc_size(256), 0x2000 + 0x1000);
    assert_eq!(queue_pages(0), 2);
}

#[test]
fn descriptor_allocation_takes_first_free() {
    let mut t = DescriptorTable::new(4);
    assert!(t.has_free());
    let a = t.allocate_raw(None, true, 0x1000, 64);
    assert_eq!(a, 0);
    assert_eq!(t.descs[0].flags, VRING_DESC_F_WRITE);
    let b = t.allocate_raw(Some(a), false, 0x2000, 16);
    assert_eq!(b, 1);
    assert_eq!(t.descs[1].flags, VRING_DESC_F_NEXT);
    assert_eq!(t.descs[1].next, 0);
    t.release_chain(b);
    assert_eq!(t.descs[0].length, 0);
    assert_eq!(t.descs[1].length, 0);
    assert_eq!(t.descs[1].addr, 0x2000);
}

#[test]
fn avail_ring_wraps() {
    let mut r = AvailRing::new(2);
    r.push(5);
    r.push(6);
    r.push(7);
    assert_eq!(r.idx, 3);
    assert_eq!(r.ents, vec![7, 6]);
}

#[test]
fn used_ring_records_results() {
    let mut s = QueueIntState::new(4);
    let ents = [UsedElem { id: 2, len: 100 }, UsedElem { id: 0, len: 7 }, UsedElem { id: 0, len: 0 }, UsedElem { id: 0, len: 0 }];
    let n = s.check_interrupt(2, &ents);
    assert_eq!(n, 2);
    assert_eq!(s.last_seen_used, 2);
    assert!(s.is_complete(2));
    assert_eq!(s.take_result(2), Some(100));
    assert_eq!(s.take_result(2), None);
    assert_eq!(s.take_result(0), Some(7));
    assert_eq!(s.avail_ring_res[1], NO_RESULT);
}

#[test]
fn releasing_a_lone_descriptor_frees_it_again() {
    let mut t = DescriptorTable::new(4);
    let a = t.allocate_raw(None, false, 0x1000, 16);
    let b = t.allocate_raw(None, true, 0x2000, 32);
    assert_eq!((a, b), (0, 1));
    t.release_chain(b);
    assert_eq!(t.descs[1].length, 0);
    assert_eq!(t.descs[0].length, 16);
    assert_eq!(t.allocate_raw(None, false, 0x3000, 8), 1);
}
