//! The split virtqueue: layout of its memory, the descriptor table, the
//! available ring written by the driver and the used ring written by the
//! device.
use vstd::prelude::*;

verus! {

/// The buffer continues in the descriptor named by `next`.
pub const VRING_DESC_F_NEXT: u16 = 1;
/// The device writes the buffer (otherwise it reads it).
pub const VRING_DESC_F_WRITE: u16 = 2;
/// The buffer holds a table of descriptors.
pub const VRING_DESC_F_INDIRECT: u16 = 4;
/// Size in bytes of a descriptor.
pub const SIZEOF_VRING_DESC: usize = 16;
/// Size of a memory page.
pub const PAGE_SIZE: usize = 0x1000;
/// Marks a slot of the completion table with no result.
pub const NO_RESULT: usize = usize::MAX;

/// `n` rounded up to a whole number of pages.
pub open spec fn page_round_up(n: int) -> int {
    ((n + 0xFFF) / 0x1000) * 0x1000
}

/// Bytes before the used ring: the descriptor table and the available ring
/// (flags, index, `count` entries, event), rounded up to pages.
pub open spec fn first_size_spec(count: int) -> int {
    page_round_up(16 * count + 2 * (count + 3))
}

/// Bytes of the whole queue: the first part, then the used ring (header,
/// `count` elements of 8 bytes, footer) rounded up to pages.
pub open spec fn alloc_size_spec(count: int) -> int {
    first_size_spec(count) + page_round_up(6 + 8 * count)
}

/// Size of the descriptor table and available ring, in whole pages.
pub fn get_first_size(count: usize) -> (r: usize)
    requires
        count <= 0x10000,
    ensures
        r == first_size_spec(count as int),
{
    let first = SIZEOF_VRING_DESC * count + (2 + count + 1) * 2;
    (first + 0xFFF) / 0x1000 * 0x1000
}

/// Size of the memory a queue of `count` entries occupies.
pub fn get_alloc_size(count: usize) -> (r: usize)
    requires
        count <= 0x10000,
    ensures
        r == alloc_size_spec(count as int),
        r >= 0x2000,
{
    let second = 2 * 3 + 8 * count;
    get_first_size(count) + (second + 0xFFF) / 0x1000 * 0x1000
}

/// Number of pages a queue of `count` entries occupies (never zero).
pub fn queue_pages(count: usize) -> (r: usize)
    requires
        count <= 0x10000,
    ensures
        r == alloc_size_spec(count as int) / 0x1000,
        r > 0,
{
    get_alloc_size(count) / PAGE_SIZE
}

/// A descriptor: one buffer of a request.
#[derive(Copy, Clone, Debug, PartialEq, Eq, Structural)]
pub struct VRingDesc {
    pub addr: u64,
    pub length: u32,
    pub flags: u16,
    pub next: u16,
}

/// The flags of a descriptor that continues in `next` (or not) and that the
/// device writes (or reads).
pub open spec fn desc_flags(has_next: bool, write: bool) -> u16 {
    (if has_next { VRING_DESC_F_NEXT } else { 0 }) | (if write { VRING_DESC_F_WRITE } else { 0 })
}

/// A descriptor is free when its length is zero.
pub open spec fn is_free(d: VRingDesc) -> bool {
    d.length == 0
}

/// The first free descriptor.
pub open spec fn first_free(descs: Seq<VRingDesc>, i: int) -> bool {
    0 <= i < descs.len() && is_free(descs[i]) && forall|j: int| 0 <= j < i ==> !#[trigger] is_free(descs[j])
}

/// Following `next` from `i` reaches a descriptor without `NEXT` within
/// `fuel` steps, staying inside the table.
pub open spec fn chain_terminates(descs: Seq<VRingDesc>, i: int, fuel: nat) -> bool
    decreases fuel,
{
    if fuel == 0 || !(0 <= i < descs.len()) {
        false
    } else if descs[i].flags & VRING_DESC_F_NEXT == 0 {
        true
    } else {
        chain_terminates(descs, descs[i].next as int, (fuel - 1) as nat)
    }
}

/// The descriptors met following `next` from `i`, within `fuel` steps.
pub open spec fn chain_members(descs: Seq<VRingDesc>, i: int, fuel: nat) -> Set<int>
    decreases fuel,
{
    if fuel == 0 || !(0 <= i < descs.len()) {
        Set::empty()
    } else if descs[i].flags & VRING_DESC_F_NEXT == 0 {
        set![i]
    } else {
        set![i] + chain_members(descs, descs[i].next as int, (fuel - 1) as nat)
    }
}

/// What allocating a descriptor does: the first free one, `r`, is filled in
/// (chained to `next` when there is one).
pub open spec fn allocated_desc(
    before: Seq<VRingDesc>,
    next: Option<u16>,
    write: bool,
    phys: u64,
    len: u32,
    r: int,
    after: Seq<VRingDesc>,
) -> bool {
    &&& first_free(before, r)
    &&& after == before.update(r, VRingDesc {
        addr: phys,
        length: len,
        flags: desc_flags(next is Some, write),
        next: match next { Some(v) => v, None => 0 },
    })
}

/// What releasing the chain from `first` does: every member is marked free
/// (its length cleared); nothing else changes.
pub open spec fn released_chain(before: Seq<VRingDesc>, first: int, after: Seq<VRingDesc>) -> bool {
    &&& after.len() == before.len()
    &&& forall|k: int| 0 <= k < before.len() ==> #[trigger] after[k] == (
        if chain_members(before, first, before.len()).contains(k) {
            VRingDesc { length: 0, ..before[k] }
        } else {
            before[k]
        })
}

/// A descriptor allocated on its own (no successor) forms a chain that
/// release accepts, and releasing it leaves every descriptor exactly as
/// free as it was before the allocation.
pub proof fn lemma_release_undoes_allocate(
    d0: Seq<VRingDesc>,
    write: bool,
    phys: u64,
    len: u32,
    r: int,
    d1: Seq<VRingDesc>,
    d2: Seq<VRingDesc>,
)
    requires
        allocated_desc(d0, None, write, phys, len, r, d1),
    ensures
        chain_terminates(d1, r, d1.len()),
        released_chain(d1, r, d2) ==> forall|k: int| 0 <= k < d0.len() ==> #[trigger] is_free(d2[k]) == is_free(d0[k]),
{
    assert(desc_flags(false, write) & VRING_DESC_F_NEXT == 0) by (bit_vector);
    assert(chain_members(d1, r, d1.len()) == set![r]);
}

/// The descriptor table of a queue.
pub struct DescriptorTable {
    pub descs: Vec<VRingDesc>,
}

impl DescriptorTable {
    /// A table of `count` free descriptors.
    pub fn new(count: usize) -> (r: DescriptorTable)
        ensures
            r.descs@.len() == count,
            forall|i: int| 0 <= i < count ==> r.descs@[i] == (VRingDesc { addr: 0, length: 0, flags: 0, next: 0 }),
    {
        let mut descs: Vec<VRingDesc> = Vec::new();
        let mut i: usize = 0;
        while i < count
            invariant
                i <= count,
                descs@.len() == i,
                forall|k: int| 0 <= k < i ==> descs@[k] == (VRingDesc { addr: 0, length: 0, flags: 0, next: 0 }),
            decreases count - i,
        {
            descs.push(VRingDesc { addr: 0, length: 0, flags: 0, next: 0 });
            i += 1;
        }
        DescriptorTable { descs }
    }

    /// Some descriptor is free.
    pub fn has_free(&self) -> (r: bool)
        ensures
            r == exists|i: int| 0 <= i < self.descs@.len() && is_free(self.descs@[i]),
    {
        let mut i: usize = 0;
        while i < self.descs.len()
            invariant
                i <= self.descs@.len(),
                forall|j: int| 0 <= j < i ==> !is_free(self.descs@[j]),
            decreases self.descs@.len() - i,
        {
            if self.descs[i].length == 0 {
                return true;
            }
            i += 1;
        }
        false
    }

    /// Fill the first free descriptor with a buffer at `phys` of `len` bytes,
    /// linked to `next` if given; its index comes back.
    pub fn allocate_raw(&mut self, next: Option<u16>, write: bool, phys: u64, len: u32) -> (r: u16)
        requires
            old(self).descs@.len() <= 0x10000,
            exists|i: int| 0 <= i < old(self).descs@.len() && is_free(old(self).descs@[i]),
        ensures
            allocated_desc(old(self).descs@, next, write, phys, len, r as int, final(self).descs@),
    {
        let mut i: usize = 0;
        while i < self.descs.len()
            invariant
                i <= self.descs@.len() <= 0x10000,
                self.descs@ == old(self).descs@,
                exists|k: int| 0 <= k < old(self).descs@.len() && is_free(old(self).descs@[k]),
                forall|j: int| 0 <= j < i ==> !#[trigger] is_free(self.descs@[j]),
            decreases self.descs@.len() - i,
        {
            if self.descs[i].length == 0 {
                let flags = (if next.is_some() { VRING_DESC_F_NEXT } else { 0 }) | (if write { VRING_DESC_F_WRITE } else { 0 });
                let nx = match next {
                    Some(v) => v,
                    None => 0,
                };
                self.descs.set(i, VRingDesc { addr: phys, length: len, flags, next: nx });
                return i as u16;
            }
            i += 1;
        }
        proof {
            let k = choose|k: int| 0 <= k < old(self).descs@.len() && is_free(old(self).descs@[k]);
            assert(!is_free(self.descs@[k]));
        }
        0
    }

    /// Free every descriptor of the chain that starts at `first`.
    pub fn release_chain(&mut self, first: u16)
        requires
            chain_terminates(old(self).descs@, first as int, old(self).descs@.len()),
        ensures
            released_chain(old(self).descs@, first as int, final(self).descs@),
    {
        let ghost od = self.descs@;
        let ghost full = chain_members(od, first as int, od.len());
        let ghost mut visited: Set<int> = Set::empty();
        let ghost mut fuel: nat = od.len();
        let mut idx: usize = first as usize;
        loop
            invariant
                self.descs@.len() == od.len(),
                chain_terminates(od, idx as int, fuel),
                full == visited + chain_members(od, idx as int, fuel),
                forall|k: int| 0 <= k < od.len() ==> #[trigger] self.descs@[k] == (
                    if visited.contains(k) { VRingDesc { length: 0, ..od[k] } } else { od[k] }),
            ensures
                forall|k: int| 0 <= k < od.len() ==> #[trigger] self.descs@[k] == (
                    if full.contains(k) { VRingDesc { length: 0, ..od[k] } } else { od[k] }),
            decreases fuel,
        {
            let d = self.descs[idx];
            self.descs.set(idx, VRingDesc { length: 0, ..d });
            proof {
                visited = visited.insert(idx as int);
            }
            if d.flags & VRING_DESC_F_NEXT == 0 {
                proof {
                    assert(chain_members(od, idx as int, fuel) == set![idx as int]);
                    assert(full =~= visited);
                }
                break;
            }
            proof {
                assert(chain_members(od, idx as int, fuel) == set![idx as int] + chain_members(od, d.next as int, (fuel - 1) as nat));
                assert(full =~= visited + chain_members(od, d.next as int, (fuel - 1) as nat));
                fuel = (fuel - 1) as nat;
            }
            idx = d.next as usize;
        }
    }
}

/// The available ring: the descriptor chains handed to the device.
pub struct AvailRing {
    pub flags: u16,
    /// Free-running count of entries written
    pub idx: u16,
    pub ents: Vec<u16>,
}

impl AvailRing {
    /// A ring of `count` entries, nothing handed over yet.
    pub fn new(count: usize) -> (r: AvailRing)
        ensures
            r.flags == 0,
            r.idx == 0,
            r.ents@ == Seq::new(count as nat, |i: int| 0u16),
    {
        let mut ents: Vec<u16> = Vec::new();
        let mut i: usize = 0;
        while i < count
            invariant
                i <= count,
                ents@ == Seq::new(i as nat, |k: int| 0u16),
            decreases count - i,
        {
            ents.push(0);
            i += 1;
            assert(ents@ =~= Seq::new(i as nat, |k: int| 0u16));
        }
        AvailRing { flags: 0, idx: 0, ents }
    }

    /// Hand the chain starting at descriptor `val` to the device: it goes in
    /// the slot the index names (modulo the ring size) and the index moves on
    /// (wrapping at 2^16).
    pub fn push(&mut self, val: u16)
        requires
            old(self).ents@.len() > 0,
        ensures
            final(self).flags == old(self).flags,
            final(self).ents@ == old(self).ents@.update(old(self).idx as int % old(self).ents@.len() as int, val),
            final(self).idx == (old(self).idx + 1) % 0x10000,
    {
        let count = self.ents.len();
        let slot = self.idx as usize % count;
        self.ents.set(slot, val);
        self.idx = self.idx.wrapping_add(1);
    }
}

/// An element of the used ring: the head of a finished chain and the
/// number of bytes the device wrote.
#[derive(Copy, Clone, Debug, PartialEq, Eq, Structural)]
pub struct UsedElem {
    pub id: u32,
    pub len: u32,
}

/// Number of used-ring entries the device has added since `last_seen`.
pub open spec fn pending_count(last_seen: u16, used_idx: u16) -> nat {
    ((used_idx as int - last_seen as int) % 0x10000) as nat
}

/// The used-ring element read for the `k`-th pending entry.
pub open spec fn pending_elem(ents: Seq<UsedElem>, n: nat, last_seen: u16, k: int) -> UsedElem {
    ents[(((last_seen as int + k) % 0x10000) % n as int)]
}

/// The completion table after recording the first `k` pending entries:
/// the length of each finished chain is stored under its head.
pub open spec fn record_used(res: Seq<usize>, ents: Seq<UsedElem>, last_seen: u16, k: nat) -> Seq<usize>
    decreases k,
{
    if k == 0 {
        res
    } else {
        let prev = record_used(res, ents, last_seen, (k - 1) as nat);
        let e = pending_elem(ents, res.len(), last_seen, k - 1);
        prev.update(e.id as int, e.len as usize)
    }
}

/// Completion state of a queue: the last used-ring index seen and, for each
/// descriptor, the length of its finished request (or `NO_RESULT`).
pub struct QueueIntState {
    pub last_seen_used: u16,
    pub avail_ring_res: Vec<usize>,
}

impl QueueIntState {
    /// State of a fresh queue of `count` entries: nothing seen, no result.
    pub fn new(count: usize) -> (r: QueueIntState)
        ensures
            r.last_seen_used == 0,
            r.avail_ring_res@ == Seq::new(count as nat, |i: int| NO_RESULT),
    {
        let mut res: Vec<usize> = Vec::new();
        let mut i: usize = 0;
        while i < count
            invariant
                i <= count,
                res@ == Seq::new(i as nat, |k: int| NO_RESULT),
            decreases count - i,
        {
            res.push(NO_RESULT);
            i += 1;
            assert(res@ =~= Seq::new(i as nat, |k: int| NO_RESULT));
        }
        QueueIntState { last_seen_used: 0, avail_ring_res: res }
    }

    /// Take in what the device added to the used ring (`used_idx` and the
    /// ring's elements): each finished chain's length is recorded under its
    /// head. Returns how many requests finished.
    pub fn check_interrupt(&mut self, used_idx: u16, ents: &[UsedElem]) -> (r: usize)
        requires
            old(self).avail_ring_res@.len() > 0,
            ents@.len() >= old(self).avail_ring_res@.len(),
            forall|k: int| 0 <= k < pending_count(old(self).last_seen_used, used_idx) ==>
                (#[trigger] pending_elem(ents@, old(self).avail_ring_res@.len(), old(self).last_seen_used, k)).id
                    < old(self).avail_ring_res@.len(),
        ensures
            r == pending_count(old(self).last_seen_used, used_idx),
            final(self).last_seen_used == used_idx,
            final(self).avail_ring_res@ == record_used(
                old(self).avail_ring_res@,
                ents@,
                old(self).last_seen_used,
                pending_count(old(self).last_seen_used, used_idx),
            ),
    {
        let ghost start = self.last_seen_used;
        let ghost res0 = self.avail_ring_res@;
        let ghost total = pending_count(start, used_idx);
        let n = self.avail_ring_res.len();
        let mut count: usize = 0;
        while self.last_seen_used != used_idx
            invariant
                n == res0.len() > 0,
                ents@.len() >= n,
                self.avail_ring_res@.len() == n,
                count <= total,
                count <= 0x10000,
                self.last_seen_used as int == (start as int + count) % 0x10000,
                total == pending_count(start, used_idx),
                total < 0x10000,
                self.last_seen_used != used_idx ==> count < total,
                self.avail_ring_res@ == record_used(res0, ents@, start, count as nat),
                forall|k: int| 0 <= k < total ==> (#[trigger] pending_elem(ents@, n as nat, start, k)).id < n,
            decreases total - count,
        {
            let slot = self.last_seen_used as usize % n;
            self.last_seen_used = self.last_seen_used.wrapping_add(1);
            let e = ents[slot];
            assert(e == pending_elem(ents@, n as nat, start, count as int));
            self.avail_ring_res.set(e.id as usize, e.len as usize);
            count += 1;
            proof {
                if self.last_seen_used != used_idx {
                    assert(count != total);
                }
            }
        }
        count
    }

    /// Whether the request headed by descriptor `slot` has finished.
    pub fn is_complete(&self, slot: u16) -> (r: bool)
        requires
            (slot as int) < self.avail_ring_res@.len(),
        ensures
            r == (self.avail_ring_res@[slot as int] != NO_RESULT),
    {
        self.avail_ring_res[slot as usize] != NO_RESULT
    }

    /// Take the length of the finished request headed by `slot`, leaving no
    /// result behind; nothing if it has not finished.
    pub fn take_result(&mut self, slot: u16) -> (r: Option<usize>)
        requires
            (slot as int) < old(self).avail_ring_res@.len(),
        ensures
            final(self).last_seen_used == old(self).last_seen_used,
            final(self).avail_ring_res@ == old(self).avail_ring_res@.update(slot as int, NO_RESULT),
            old(self).avail_ring_res@[slot as int] == NO_RESULT ==> r is None,
            old(self).avail_ring_res@[slot as int] != NO_RESULT ==> r == Some(old(self).avail_ring_res@[slot as int]),
    {
        let v = self.avail_ring_res[slot as usize];
        self.avail_ring_res.set(slot as usize, NO_RESULT);
        if v != NO_RESULT {
            Some(v)
        } else {
            None
        }
    }
}

} // verus!
