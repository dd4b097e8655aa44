//! Queue-head pool: one page of 64 queue heads, with bitmaps of the ones
//! allocated, released (awaiting collection) and owned by the controller.
use vstd::prelude::*;
use crate::usb_ehci::desc_pools::{set_first_zero_bit, get_and_clear_bit, byte_bit, first_zero_choice, lowest_clear, lemma_lowest_clear};
use crate::usb_ehci::desc_pools::td_pool::{TdHandle, TdPool, TD_COUNT, TD_SIZE};
use crate::usb_ehci::hw_structs::{QueueHead, QTD_TOKEN_STS_ACTIVE, QTD_TOKEN_STS_HALT, QH_HLINK_TY_QH};

verus! {

/// Queue heads in the pool.
pub const QH_COUNT: usize = 64;
/// Size of one queue head, in bytes.
pub const QH_SIZE: usize = 64;

/// Set bit `idx` of a byte bitmap.
pub fn set_bit(bitset: &mut [u8], idx: usize)
    requires
        idx / 8 < old(bitset)@.len(),
    ensures
        final(bitset)@ == old(bitset)@.update(
            (idx / 8) as int,
            old(bitset)@[(idx / 8) as int] | (1u8 << ((idx % 8) as u8)),
        ),
{
    let b = bitset[idx / 8];
    bitset[idx / 8] = b | (1u8 << ((idx % 8) as u8));
}

/// Bit `idx` of a byte bitmap.
pub fn get_bit(bitset: &[u8], idx: usize) -> (r: bool)
    requires
        idx / 8 < bitset@.len(),
    ensures
        r == byte_bit(bitset@, idx as int),
{
    bitset[idx / 8] & (1u8 << ((idx % 8) as u8)) != 0
}

/// Owned handle to a queue head.
#[derive(Debug)]
pub struct QhHandle(pub usize);

/// The queue head at an address in the pool's page.
pub open spec fn qh_index_of(phys0: u32, addr: u32) -> int {
    (addr - phys0) / (QH_SIZE as int)
}

/// `addr` is the address of a queue head of the pool.
pub open spec fn qh_addr_ok(phys0: u32, addr: u32) -> bool {
    addr >= phys0 && addr < phys0 + 0x1000 && addr % (QH_SIZE as u32) == 0
}

/// The pool.
pub struct QhPool {
    /// Physical address of queue head 0
    pub phys0: u32,
    pub alloced: [u8; 8],
    pub released: [u8; 8],
    /// Queue heads owned by the controller (not to be touched)
    pub running: [u8; 8],
    pub data: Vec<QueueHead>,
    /// First descriptor of each queue head's transfer
    pub td: Vec<Option<TdHandle>>,
    /// Free queue heads (allocation waits while this is zero)
    pub free: usize,
}

/// The controller finished the queue head's transfer: the overlay is not
/// active and its link terminates.
pub open spec fn qh_complete(q: QueueHead) -> bool {
    q.overlay_token & QTD_TOKEN_STS_ACTIVE == 0 && q.overlay_link & 1 == 1
}

/// Index of the queue head that `data[i].hlink` points to.
pub open spec fn hlink_next(data: Seq<QueueHead>, phys0: u32, i: int) -> int {
    qh_index_of(phys0, data[i].hlink & !0xFu32)
}

/// The walk from `cur` along the horizontal links stops (at a null link,
/// at `ent`, or back at `root`) within `fuel` steps, through valid links.
pub open spec fn walk_stops(data: Seq<QueueHead>, phys0: u32, root: int, ent: int, cur: int, fuel: nat) -> bool
    decreases fuel,
{
    if fuel == 0 {
        false
    } else if data[cur].hlink == 0 {
        true
    } else if !qh_addr_ok(phys0, data[cur].hlink & !0xFu32) {
        false
    } else {
        let next = hlink_next(data, phys0, cur);
        next == ent || next == root || walk_stops(data, phys0, root, ent, next, (fuel - 1) as nat)
    }
}

/// The queue head whose link points at `ent`, found on the walk from `cur`.
pub open spec fn walk_find(data: Seq<QueueHead>, phys0: u32, root: int, ent: int, cur: int, fuel: nat) -> Option<int>
    decreases fuel,
{
    if fuel == 0 || data[cur].hlink == 0 || !qh_addr_ok(phys0, data[cur].hlink & !0xFu32) {
        None
    } else {
        let next = hlink_next(data, phys0, cur);
        if next == ent {
            Some(cur)
        } else if next == root {
            None
        } else {
            walk_find(data, phys0, root, ent, next, (fuel - 1) as nat)
        }
    }
}

/// The slot an allocation takes from the bitmap `a`: the lowest clear bit
/// of the first byte that is not full.
pub open spec fn picks_slot(a: Seq<u8>, k: int) -> bool {
    &&& first_zero_choice(a, 0, k / 8)
    &&& k % 8 == lowest_clear(a[k / 8])
}

/// `after` is the released bitmap `before` with slot `h` marked.
pub open spec fn marks_released(before: Seq<u8>, h: int, after: Seq<u8>) -> bool {
    after == before.update(h / 8, before[h / 8] | (1u8 << ((h % 8) as u8)))
}

/// `after` is `before` collected: nothing is left released, and exactly
/// the released queue heads stop being allocated.
pub open spec fn collected(before: QhPool, after: QhPool) -> bool {
    &&& forall|i: int| 0 <= i < QH_COUNT ==> !#[trigger] byte_bit(after.released@, i)
    &&& forall|i: int| 0 <= i < QH_COUNT ==> #[trigger] byte_bit(after.alloced@, i) == (byte_bit(
        before.alloced@,
        i,
    ) && !byte_bit(before.released@, i))
}

/// A queue head that was handed out and then released stays allocated
/// until the next collection, however many allocations are made meanwhile
/// (they leave the released bitmap alone, and `lemma_released_not_picked`
/// keeps each of them off it); the collection frees it, and the count of free queue heads grows
/// by at least one.
pub proof fn lemma_release_then_collect(p0: QhPool, h: int, p1: QhPool, pm: QhPool, p2: QhPool)
    requires
        0 <= h < QH_COUNT,
        p0.wf(),
        p0.alloced@.len() == 8,
        p0.released@.len() == 8,
        byte_bit(p0.alloced@, h),
        marks_released(p0.released@, h, p1.released@),
        p1.alloced == p0.alloced,
        p1.free == p0.free,
        pm.wf(),
        pm.released@ == p1.released@,
        collected(pm, p2),
        p2.free == pm.free + set_upto(pm.released@, QH_COUNT as nat),
    ensures
        byte_bit(p1.alloced@, h),
        byte_bit(pm.released@, h),
        byte_bit(pm.alloced@, h),
        forall|k: int| 0 <= k < QH_COUNT && #[trigger] picks_slot(pm.alloced@, k) ==> k != h,
        !byte_bit(p2.alloced@, h),
        !byte_bit(p2.released@, h),
        p2.free >= pm.free + 1,
{
    crate::bits::lemma_u8_bits(p0.released@[h / 8], (h % 8) as u8, (h % 8) as u8);
    assert(byte_bit(p1.released@, h));
    assert(byte_bit(pm.released@, h));
    lemma_set_upto_counts(pm.released@, h, QH_COUNT as nat);
    lemma_released_not_picked(pm, h);
}

/// In any pool state, a queue head marked released is still allocated, so
/// an allocation made from that state does not take it.
pub proof fn lemma_released_not_picked(p: QhPool, h: int)
    requires
        0 <= h < QH_COUNT,
        p.wf(),
        byte_bit(p.released@, h),
    ensures
        byte_bit(p.alloced@, h),
        forall|k: int| 0 <= k < QH_COUNT && #[trigger] picks_slot(p.alloced@, k) ==> k != h,
{
    assert forall|k: int| 0 <= k < QH_COUNT && #[trigger] picks_slot(p.alloced@, k) implies k != h by {
        let b = p.alloced@[k / 8];
        lemma_lowest_clear(b);
        assert(!byte_bit(p.alloced@, k));
    }
}

/// The transfer descriptor handed to a queue head (`assign_td`) comes back
/// from `clear_td` once the controller has finished the transfer
/// (`check_any_complete` then takes the queue head back, so `clear_td` may
/// be called), and a second `clear_td` finds nothing.
pub proof fn lemma_assigned_td_comes_back(
    p0: QhPool,
    h: int,
    td: TdHandle,
    p1: QhPool,
    p2: QhPool,
    r1: Option<TdHandle>,
    p3: QhPool,
    r2: Option<TdHandle>,
)
    requires
        0 <= h < QH_COUNT,
        p0.running@.len() == 8,
        p0.td@.len() == QH_COUNT,
        p1.td@ == p0.td@.update(h, Some(td)),
        p1.running@ == p0.running@.update(h / 8, p0.running@[h / 8] | (1u8 << ((h % 8) as u8))),
        qh_complete(p1.data@[h]),
        forall|i: int| 0 <= i < QH_COUNT ==> #[trigger] p2.is_running(i) == (p1.is_running(i) && !qh_complete(p1.data@[i])),
        p2.td@ == p1.td@,
        r1 == p2.td@[h],
        p3.td@ == p2.td@.update(h, None),
        r2 == p3.td@[h],
    ensures
        p1.is_running(h),
        !p2.is_running(h),
        r1 == Some(td),
        r2 is None,
{
    crate::bits::lemma_u8_bits(p0.running@[h / 8], (h % 8) as u8, (h % 8) as u8);
    assert(p2.is_running(h) == (p1.is_running(h) && !qh_complete(p1.data@[h])));
}

impl QhPool {
    pub open spec fn wf(&self) -> bool {
        &&& self.data@.len() == QH_COUNT
        &&& self.td@.len() == QH_COUNT
        &&& self.phys0 + 0x1000 <= u32::MAX
        &&& self.phys0 % (QH_SIZE as u32) == 0
        &&& forall|i: int| 0 <= i < QH_COUNT && #[trigger] byte_bit(self.released@, i) ==> byte_bit(self.alloced@, i)
        &&& self.free + set_upto(self.alloced@, QH_COUNT as nat) == QH_COUNT
    }

    /// Queue head `i` is owned by the controller.
    pub open spec fn is_running(&self, i: int) -> bool {
        byte_bit(self.running@, i)
    }

    /// An empty pool over the page at `phys0`.
    pub fn new(phys0: u32) -> (r: QhPool)
        requires
            phys0 + 0x1000 <= u32::MAX,
            phys0 % (QH_SIZE as u32) == 0,
        ensures
            r.wf(),
            r.phys0 == phys0,
            r.alloced@ == seq![0u8; 8],
            r.released@ == seq![0u8; 8],
            r.running@ == seq![0u8; 8],
            r.free == QH_COUNT,
    {
        let mut data: Vec<QueueHead> = Vec::new();
        let mut td: Vec<Option<TdHandle>> = Vec::new();
        let mut i: usize = 0;
        while i < QH_COUNT
            invariant
                i <= QH_COUNT,
                data@.len() == i,
                td@.len() == i,
            decreases QH_COUNT - i,
        {
            data.push(QueueHead {
                hlink: 1,
                endpoint: 0,
                endpoint_ext: 0,
                current_td: 0,
                overlay_link: 0,
                overlay_link2: 0,
                overlay_token: 0,
                overlay_pages: [0u32; 5],
            });
            td.push(None);
            i += 1;
        }
        let r = QhPool {
            phys0,
            alloced: [0u8; 8],
            released: [0u8; 8],
            running: [0u8; 8],
            data,
            td,
            free: QH_COUNT,
        };
        assert(r.alloced@ =~= seq![0u8; 8]);
        assert(r.released@ =~= seq![0u8; 8]);
        assert(r.running@ =~= seq![0u8; 8]);
        proof {
            assert forall|k: int| 0 <= k < QH_COUNT implies !#[trigger] byte_bit(r.alloced@, k) by {
                crate::bits::lemma_u8_bits(0u8, (k % 8) as u8, (k % 8) as u8);
            }
            lemma_set_upto_none(r.alloced@, QH_COUNT as nat);
        }
        r
    }

    /// Store `v` in the first free queue head.
    pub fn alloc_raw(&mut self, v: QueueHead) -> (r: QhHandle)
        requires
            old(self).wf(),
            old(self).free > 0,
        ensures
            final(self).wf(),
            r.0 < QH_COUNT,
            picks_slot(old(self).alloced@, r.0 as int),
            final(self).alloced@ == old(self).alloced@.update(
                (r.0 / 8) as int,
                old(self).alloced@[(r.0 / 8) as int] | (1u8 << ((r.0 % 8) as u8)),
            ),
            final(self).data@ == old(self).data@.update(r.0 as int, v),
            final(self).td@ == old(self).td@,
            final(self).free == old(self).free - 1,
            final(self).released == old(self).released,
            final(self).running == old(self).running,
            final(self).phys0 == old(self).phys0,
    {
        let ghost a0 = self.alloced@;
        match set_first_zero_bit(&mut self.alloced, 0) {
            Some(i) => {
                assert(i / 8 < 8);
                proof {
                    lemma_set_byte_bit(a0, self.alloced@, i as int);
                    lemma_lowest_clear(a0[(i / 8) as int]);
                    lemma_set_upto_flip(a0, self.alloced@, i as int, QH_COUNT as nat);
                }
                self.data.set(i, v);
                self.free = self.free - 1;
                QhHandle(i)
            },
            None => {
                proof {
                    assert forall|k: int| 0 <= k < QH_COUNT implies #[trigger] byte_bit(a0, k) by {
                        assert(a0[k / 8] == 0xFF);
                        crate::bits::lemma_u8_bits(0xFFu8, (k % 8) as u8, (k % 8) as u8);
                    }
                    lemma_set_upto_all(a0, QH_COUNT as nat);
                }
                QhHandle(0)
            },
        }
    }

    /// Allocate a queue head for an endpoint: terminating link, no transfer.
    pub fn allocate(&mut self, endpoint_id: u32, endpoint_ext: u32) -> (r: QhHandle)
        requires
            old(self).wf(),
            old(self).free > 0,
        ensures
            final(self).wf(),
            r.0 < QH_COUNT,
            final(self).data@[r.0 as int].hlink == 1,
            final(self).data@[r.0 as int].endpoint == endpoint_id,
            final(self).data@[r.0 as int].endpoint_ext == endpoint_ext,
            final(self).data@[r.0 as int].current_td == 0,
            final(self).data@[r.0 as int].overlay_link == 0,
            final(self).data@[r.0 as int].overlay_link2 == 0,
            final(self).data@[r.0 as int].overlay_token == 0,
            forall|k: int| 0 <= k < 5 ==> final(self).data@[r.0 as int].overlay_pages[k] == 0,
            final(self).td@[r.0 as int] is None,
            forall|k: int| 0 <= k < QH_COUNT && k != r.0 ==> final(self).td@[k] == old(self).td@[k],
            forall|k: int| 0 <= k < QH_COUNT && k != r.0 ==> final(self).data@[k] == old(self).data@[k],
            picks_slot(old(self).alloced@, r.0 as int),
            final(self).alloced@ == old(self).alloced@.update(
                (r.0 / 8) as int,
                old(self).alloced@[(r.0 / 8) as int] | (1u8 << ((r.0 % 8) as u8)),
            ),
            final(self).free == old(self).free - 1,
            final(self).released == old(self).released,
            final(self).running == old(self).running,
            final(self).phys0 == old(self).phys0,
    {
        let rv = self.alloc_raw(QueueHead {
            hlink: 1,
            endpoint: endpoint_id,
            endpoint_ext,
            current_td: 0,
            overlay_link: 0,
            overlay_link2: 0,
            overlay_token: 0,
            overlay_pages: [0u32; 5],
        });
        self.td.set(rv.0, None);
        rv
    }

    /// Mark a queue head released: it is freed by the next collection.
    pub fn release(&mut self, handle: QhHandle)
        requires
            old(self).wf(),
            handle.0 < QH_COUNT,
            byte_bit(old(self).alloced@, handle.0 as int),
        ensures
            final(self).wf(),
            marks_released(old(self).released@, handle.0 as int, final(self).released@),
            forall|k: int| 0 <= k < QH_COUNT ==> #[trigger] byte_bit(final(self).released@, k) == (byte_bit(old(self).released@, k) || k == handle.0),
            final(self).alloced == old(self).alloced,
            final(self).data@ == old(self).data@,
            final(self).free == old(self).free,
            final(self).td@ == old(self).td@,
            final(self).running == old(self).running,
            final(self).phys0 == old(self).phys0,
    {
        let ghost r0 = self.released@;
        set_bit(&mut self.released, handle.0);
        proof {
            lemma_set_byte_bit(r0, self.released@, handle.0 as int);
        }
    }

    /// Physical address of a queue head.
    pub fn get_phys(&self, h: &QhHandle) -> (r: u32)
        requires
            self.wf(),
            h.0 < QH_COUNT,
        ensures
            r == self.phys0 + QH_SIZE * h.0,
    {
        self.phys0 + (h.0 * QH_SIZE) as u32
    }

    /// Index of the queue head at a physical address.
    pub fn get_idx_from_phys(&self, addr: u32) -> (r: usize)
        requires
            self.wf(),
            qh_addr_ok(self.phys0, addr),
        ensures
            r == qh_index_of(self.phys0, addr),
            r < QH_COUNT,
    {
        ((addr - self.phys0) / QH_SIZE as u32) as usize
    }

    /// The queue head (not while the controller owns it).
    pub fn get_data(&self, h: &QhHandle) -> (r: &QueueHead)
        requires
            self.wf(),
            h.0 < QH_COUNT,
            !self.is_running(h.0 as int),
        ensures
            *r == self.data@[h.0 as int],
    {
        &self.data[h.0]
    }

    /// Give a queue head its first transfer descriptor and hand it to the
    /// controller: the overlay points at the descriptor and is un-halted.
    pub fn assign_td(&mut self, handle: &mut QhHandle, td_pool: &TdPool, first_td: TdHandle)
        requires
            old(self).wf(),
            td_pool.wf(),
            old(handle).0 < QH_COUNT,
            first_td.index() < TD_COUNT,
            !old(self).is_running(old(handle).0 as int),
        ensures
            final(self).wf(),
            *final(handle) == *old(handle),
            final(self).data@ == old(self).data@.update(
                old(handle).0 as int,
                QueueHead {
                    current_td: (td_pool.phys0 + TD_SIZE * first_td.index()) as u32,
                    overlay_link: (td_pool.phys0 + TD_SIZE * first_td.index()) as u32,
                    overlay_token: 0,
                    ..old(self).data@[old(handle).0 as int]
                },
            ),
            final(self).td@ == old(self).td@.update(old(handle).0 as int, Some(first_td)),
            final(self).running@ == old(self).running@.update(
                (old(handle).0 / 8) as int,
                old(self).running@[(old(handle).0 / 8) as int] | (1u8 << ((old(handle).0 % 8) as u8)),
            ),
            final(self).alloced == old(self).alloced,
            final(self).released == old(self).released,
            final(self).free == old(self).free,
    {
        let i = handle.0;
        let phys = td_pool.get_phys(&first_td);
        let mut d = self.data[i];
        d.current_td = phys;
        d.overlay_link = phys;
        d.overlay_token = 0;
        self.data.set(i, d);
        self.td.set(i, Some(first_td));
        set_bit(&mut self.running, i);
    }

    /// Take the transfer descriptors off an idle queue head.
    pub fn clear_td(&mut self, handle: &mut QhHandle) -> (r: Option<TdHandle>)
        requires
            old(self).wf(),
            old(handle).0 < QH_COUNT,
            !old(self).is_running(old(handle).0 as int),
        ensures
            final(self).wf(),
            *final(handle) == *old(handle),
            r == old(self).td@[old(handle).0 as int],
            final(self).td@ == old(self).td@.update(old(handle).0 as int, None),
            final(self).data@ == old(self).data@.update(
                old(handle).0 as int,
                QueueHead { current_td: 0, ..old(self).data@[old(handle).0 as int] },
            ),
            final(self).running == old(self).running,
            final(self).alloced == old(self).alloced,
            final(self).released == old(self).released,
            final(self).free == old(self).free,
    {
        let i = handle.0;
        let mut d = self.data[i];
        d.current_td = 0;
        self.data.set(i, d);
        self.td[i].take()
    }

    /// Free every released queue head (once the controller no longer
    /// looks at them).
    pub fn trigger_gc(&mut self)
        requires
            old(self).wf(),
        ensures
            final(self).wf(),
            collected(*old(self), *final(self)),
            final(self).data@ == old(self).data@,
            final(self).running == old(self).running,
            final(self).td@ == old(self).td@,
            final(self).phys0 == old(self).phys0,
            final(self).free == old(self).free + set_upto(old(self).released@, QH_COUNT as nat),
    {
        let mut idx: usize = 0;
        while idx < QH_COUNT
            invariant
                self.wf(),
                self.data@ == old(self).data@,
                self.running == old(self).running,
                self.td@ == old(self).td@,
                self.phys0 == old(self).phys0,
                idx <= QH_COUNT,
                self.free == old(self).free + set_upto(old(self).released@, idx as nat),
                forall|i: int| 0 <= i < QH_COUNT && byte_bit(old(self).released@, i) ==> #[trigger] byte_bit(old(self).alloced@, i),
                forall|i: int| 0 <= i < idx ==> !#[trigger] byte_bit(self.released@, i),
                forall|i: int| idx <= i < QH_COUNT ==> #[trigger] byte_bit(self.released@, i) == byte_bit(old(self).released@, i),
                forall|i: int| 0 <= i < idx ==> #[trigger] byte_bit(self.alloced@, i) == (byte_bit(old(self).alloced@, i) && !byte_bit(old(self).released@, i)),
                forall|i: int| idx <= i < QH_COUNT ==> #[trigger] byte_bit(self.alloced@, i) == byte_bit(old(self).alloced@, i),
            decreases QH_COUNT - idx,
        {
            let ghost rel0 = self.released@;
            let ghost all0 = self.alloced@;
            let was = get_and_clear_bit(&mut self.released, idx);
            proof {
                lemma_clear_byte_bit(rel0, self.released@, idx as int);
            }
            assert(was == byte_bit(old(self).released@, idx as int));
            if was {
                let was_alloced = get_and_clear_bit(&mut self.alloced, idx);
                proof {
                    lemma_clear_byte_bit(all0, self.alloced@, idx as int);
                    lemma_set_upto_flip(all0, self.alloced@, idx as int, QH_COUNT as nat);
                }
                self.free = self.free + 1;
            }
            idx += 1;
        }
    }

    /// Unlink `ent` from the ring of queue heads starting at `root`: the
    /// queue head linking to it takes over its link. Nothing changes when
    /// the walk meets a null link or comes back to `root` first.
    pub fn remove_from_list(&mut self, root: &mut QhHandle, ent: &QhHandle)
        requires
            old(self).wf(),
            old(root).0 < QH_COUNT,
            ent.0 < QH_COUNT,
            walk_stops(old(self).data@, old(self).phys0, old(root).0 as int, ent.0 as int, old(root).0 as int, QH_COUNT as nat),
        ensures
            final(self).wf(),
            *final(root) == *old(root),
            final(self).data@ == match walk_find(old(self).data@, old(self).phys0, old(root).0 as int, ent.0 as int, old(root).0 as int, QH_COUNT as nat) {
                Some(c) => old(self).data@.update(c, QueueHead { hlink: old(self).data@[ent.0 as int].hlink, ..old(self).data@[c] }),
                None => old(self).data@,
            },
            final(self).td@ == old(self).td@,
            final(self).alloced == old(self).alloced,
            final(self).released == old(self).released,
            final(self).running == old(self).running,
            final(self).free == old(self).free,
    {
        let ghost d0 = self.data@;
        let mut cur_idx = root.0;
        let mut fuel: usize = QH_COUNT;
        loop
            invariant
                self.wf(),
                self.data@ == d0,
                d0 == old(self).data@,
                self.phys0 == old(self).phys0,
                self.td@ == old(self).td@,
                self.alloced == old(self).alloced,
                self.released == old(self).released,
                self.running == old(self).running,
                self.free == old(self).free,
                cur_idx < QH_COUNT,
                fuel <= QH_COUNT,
                walk_stops(d0, self.phys0, root.0 as int, ent.0 as int, cur_idx as int, fuel as nat),
                walk_find(d0, self.phys0, root.0 as int, ent.0 as int, root.0 as int, QH_COUNT as nat)
                    == walk_find(d0, self.phys0, root.0 as int, ent.0 as int, cur_idx as int, fuel as nat),
                *root == *old(root),
            decreases fuel,
        {
            let hlink = self.data[cur_idx].hlink;
            if hlink == 0 {
                return;
            }
            let next = self.get_idx_from_phys(hlink & !0xF);
            if next == ent.0 {
                let mut d = self.data[cur_idx];
                d.hlink = self.data[next].hlink;
                self.data.set(cur_idx, d);
                return;
            }
            cur_idx = next;
            fuel = fuel - 1;
            if cur_idx == root.0 {
                return;
            }
        }
    }

    /// Put `qh` in the ring after `head`: it starts halted, with no
    /// descriptor, and takes over `head`'s link.
    pub fn link_after(&mut self, head: &QhHandle, qh: &QhHandle)
        requires
            old(self).wf(),
            head.0 < QH_COUNT,
            qh.0 < QH_COUNT,
            head.0 != qh.0,
        ensures
            final(self).wf(),
            final(self).data@ == old(self).data@.update(
                qh.0 as int,
                QueueHead {
                    current_td: 1,
                    overlay_link: 1,
                    overlay_token: QTD_TOKEN_STS_HALT,
                    hlink: old(self).data@[head.0 as int].hlink,
                    ..old(self).data@[qh.0 as int]
                },
            ).update(
                head.0 as int,
                QueueHead {
                    hlink: (old(self).phys0 + QH_SIZE * qh.0) as u32 | QH_HLINK_TY_QH,
                    ..old(self).data@[head.0 as int]
                },
            ),
            final(self).td@ == old(self).td@,
            final(self).running == old(self).running,
            final(self).alloced == old(self).alloced,
            final(self).released == old(self).released,
            final(self).free == old(self).free,
            final(self).phys0 == old(self).phys0,
    {
        let mut this_qh = self.data[qh.0];
        let mut dead_qh = self.data[head.0];
        this_qh.current_td = 1;
        this_qh.overlay_link = 1;
        this_qh.overlay_token = QTD_TOKEN_STS_HALT;
        this_qh.hlink = dead_qh.hlink;
        dead_qh.hlink = self.get_phys(qh) | QH_HLINK_TY_QH;
        self.data.set(qh.0, this_qh);
        self.data.set(head.0, dead_qh);
    }

    /// Take the controller's ownership away from every queue head whose
    /// transfer finished (overlay inactive, link terminated); returns them.
    pub fn check_any_complete(&mut self) -> (r: Vec<usize>)
        requires
            old(self).wf(),
        ensures
            final(self).wf(),
            forall|k: int| 0 <= k < r@.len() ==> r@[k] < QH_COUNT,
            forall|i: int| 0 <= i < QH_COUNT ==> (#[trigger] r@.contains(i as usize) <==> (old(self).is_running(i)
                && qh_complete(old(self).data@[i]))),
            forall|i: int| 0 <= i < QH_COUNT ==> #[trigger] final(self).is_running(i) == (old(self).is_running(i)
                && !r@.contains(i as usize)),
            forall|a: int, b: int| 0 <= a < b < r@.len() ==> r@[a] < r@[b],
            final(self).data@ == old(self).data@,
            final(self).td@ == old(self).td@,
            final(self).alloced == old(self).alloced,
            final(self).released == old(self).released,
            final(self).free == old(self).free,
            final(self).phys0 == old(self).phys0,
    {
        let mut done: Vec<usize> = Vec::new();
        let mut idx: usize = 0;
        while idx < QH_COUNT
            invariant
                self.wf(),
                self.data@ == old(self).data@,
                self.td@ == old(self).td@,
                self.alloced == old(self).alloced,
                self.released == old(self).released,
                self.free == old(self).free,
                self.phys0 == old(self).phys0,
                idx <= QH_COUNT,
                forall|k: int| 0 <= k < done@.len() ==> done@[k] < idx,
                forall|a: int, b: int| 0 <= a < b < done@.len() ==> done@[a] < done@[b],
                forall|i: int| 0 <= i < idx ==> (#[trigger] done@.contains(i as usize) <==> (old(self).is_running(i)
                    && qh_complete(old(self).data@[i]))),
                forall|i: int| 0 <= i < idx ==> #[trigger] self.is_running(i) == (old(self).is_running(i)
                    && !done@.contains(i as usize)),
                forall|i: int| idx <= i < QH_COUNT ==> #[trigger] self.is_running(i) == old(self).is_running(i),
            decreases QH_COUNT - idx,
        {
            let ghost done0 = done@;
            let ghost run0 = self.running@;
            assert forall|i: int| idx <= i < QH_COUNT implies #[trigger] byte_bit(run0, i) == old(self).is_running(i) by {
                assert(self.is_running(i) == old(self).is_running(i));
            }
            assert forall|i: int| 0 <= i < idx implies #[trigger] byte_bit(run0, i) == (old(self).is_running(i) && !done0.contains(i as usize)) by {
                assert(self.is_running(i) == (old(self).is_running(i) && !done0.contains(i as usize)));
            }
            let mut took = false;
            if get_bit(&self.running, idx) {
                let token = self.data[idx].overlay_token;
                let link = self.data[idx].overlay_link;
                if token & QTD_TOKEN_STS_ACTIVE == 0 && link & 1 == 1 {
                    get_and_clear_bit(&mut self.running, idx);
                    proof {
                        lemma_clear_byte_bit(run0, self.running@, idx as int);
                    }
                    done.push(idx);
                    took = true;
                }
            }
            proof {
                assert(took == (old(self).is_running(idx as int) && qh_complete(old(self).data@[idx as int])));
                assert(!done0.contains(idx)) by {
                    if done0.contains(idx) {
                        let k = choose|k: int| 0 <= k < done0.len() && done0[k] == idx;
                        assert(done0[k] < idx);
                    }
                }
                assert forall|i: int| 0 <= i < QH_COUNT implies #[trigger] done@.contains(i as usize) == (done0.contains(i as usize) || (took && i == idx)) by {
                    if took {
                        lemma_push_contains(done0, idx, i as usize);
                    }
                }
                if !took {
                    assert(self.running@ == run0);
                }
                assert forall|i: int| 0 <= i < idx + 1 implies (#[trigger] done@.contains(i as usize) <==> (old(self).is_running(i)
                    && qh_complete(old(self).data@[i]))) by {
                    assert(done@.contains(i as usize) == (done0.contains(i as usize) || (took && i == idx)));
                }
                assert forall|i: int| 0 <= i < QH_COUNT implies #[trigger] self.is_running(i) == (byte_bit(run0, i) && !(took && i == idx)) by {
                    if took {
                        assert(byte_bit(self.running@, i) == (byte_bit(run0, i) && i != idx));
                    }
                }
                assert forall|i: int| 0 <= i < idx + 1 implies #[trigger] self.is_running(i) == (old(self).is_running(i)
                    && !done@.contains(i as usize)) by {
                    assert(done@.contains(i as usize) == (done0.contains(i as usize) || (took && i == idx)));
                    assert(self.is_running(i) == (byte_bit(run0, i) && !(took && i == idx)));
                    if i == idx {
                        assert(byte_bit(run0, i) == old(self).is_running(i));
                    }
                }
                assert forall|i: int| idx + 1 <= i < QH_COUNT implies #[trigger] self.is_running(i) == old(self).is_running(i) by {
                    assert(self.is_running(i) == (byte_bit(run0, i) && !(took && i == idx)));
                }
            }
            idx += 1;
        }
        done
    }

    /// Link of the queue head at `addr`, and its period (always 1).
    pub fn get_next_and_period(&self, addr: u32) -> (r: (u32, usize))
        requires
            self.wf(),
            qh_addr_ok(self.phys0, addr),
        ensures
            r == (self.data@[qh_index_of(self.phys0, addr)].hlink, 1usize),
    {
        let idx = self.get_idx_from_phys(addr);
        (self.data[idx].hlink, 1)
    }

    /// Set the link of the queue head at `ent_addr`.
    pub fn set_next(&mut self, ent_addr: u32, hlink: u32)
        requires
            old(self).wf(),
            qh_addr_ok(old(self).phys0, ent_addr),
        ensures
            final(self).wf(),
            final(self).data@ == old(self).data@.update(
                qh_index_of(old(self).phys0, ent_addr),
                QueueHead { hlink, ..old(self).data@[qh_index_of(old(self).phys0, ent_addr)] },
            ),
            final(self).td@ == old(self).td@,
            final(self).running == old(self).running,
            final(self).alloced == old(self).alloced,
            final(self).released == old(self).released,
            final(self).free == old(self).free,
            final(self).phys0 == old(self).phys0,
    {
        let idx = self.get_idx_from_phys(ent_addr);
        let mut d = self.data[idx];
        d.hlink = hlink;
        self.data.set(idx, d);
    }
}

/// A set bit below `n` is counted among the set bits up to `n`.
proof fn lemma_set_upto_counts(a: Seq<u8>, h: int, n: nat)
    requires
        0 <= h < n,
        byte_bit(a, h),
    ensures
        set_upto(a, n) >= 1,
    decreases n,
{
    if h < n - 1 {
        lemma_set_upto_counts(a, h, (n - 1) as nat);
    }
}

/// A bitmap with every bit set below `n` counts `n` there.
proof fn lemma_set_upto_all(a: Seq<u8>, n: nat)
    requires
        forall|k: int| 0 <= k < n ==> #[trigger] byte_bit(a, k),
    ensures
        set_upto(a, n) == n,
    decreases n,
{
    if n > 0 {
        lemma_set_upto_all(a, (n - 1) as nat);
    }
}

/// A bitmap with no bit set below `n` counts none there.
proof fn lemma_set_upto_none(a: Seq<u8>, n: nat)
    requires
        forall|k: int| 0 <= k < n ==> !#[trigger] byte_bit(a, k),
    ensures
        set_upto(a, n) == 0,
    decreases n,
{
    if n > 0 {
        lemma_set_upto_none(a, (n - 1) as nat);
    }
}

/// Flipping one bit of a bitmap changes its count below `n` by one, and
/// only when the bit lies below `n`.
proof fn lemma_set_upto_flip(before: Seq<u8>, after: Seq<u8>, idx: int, n: nat)
    requires
        0 <= idx,
        forall|k: int| 0 <= k < n && k != idx ==> #[trigger] byte_bit(after, k) == byte_bit(before, k),
    ensures
        set_upto(after, n) as int == set_upto(before, n) as int + if idx < n {
            (if byte_bit(after, idx) { 1int } else { 0int }) - (if byte_bit(before, idx) { 1int } else { 0int })
        } else {
            0int
        },
    decreases n,
{
    if n > 0 {
        lemma_set_upto_flip(before, after, idx, (n - 1) as nat);
    }
}

/// Set bits among the first `n` of a bitmap.
pub open spec fn set_upto(a: Seq<u8>, n: nat) -> nat
    decreases n,
{
    if n == 0 {
        0
    } else {
        set_upto(a, (n - 1) as nat) + if byte_bit(a, n - 1) { 1nat } else { 0nat }
    }
}

proof fn lemma_push_contains(s: Seq<usize>, x: usize, y: usize)
    ensures
        s.push(x).contains(y) == (s.contains(y) || x == y),
{
    if s.contains(y) {
        let k = choose|k: int| 0 <= k < s.len() && s[k] == y;
        assert(s.push(x)[k] == y);
    }
    if x == y {
        assert(s.push(x)[s.len() as int] == y);
    }
    if s.push(x).contains(y) {
        let k = choose|k: int| 0 <= k < s.len() + 1 && s.push(x)[k] == y;
        if k < s.len() {
            assert(s[k] == y);
        }
    }
}

proof fn lemma_set_byte_bit(before: Seq<u8>, after: Seq<u8>, idx: int)
    requires
        0 <= idx / 8 < before.len(),
        0 <= idx,
        after == before.update(idx / 8, before[idx / 8] | (1u8 << ((idx % 8) as u8))),
    ensures
        forall|k: int| 0 <= k < before.len() * 8 ==> #[trigger] byte_bit(after, k) == (byte_bit(before, k) || k == idx),
{
    assert forall|k: int| 0 <= k < before.len() * 8 implies #[trigger] byte_bit(after, k) == (byte_bit(before, k) || k == idx) by {
        if k / 8 == idx / 8 {
            let x = before[idx / 8];
            let b = (idx % 8) as u8;
            let c = (k % 8) as u8;
            crate::bits::lemma_u8_bits(x, b, c);
        }
    }
}

proof fn lemma_clear_byte_bit(before: Seq<u8>, after: Seq<u8>, idx: int)
    requires
        0 <= idx / 8 < before.len(),
        0 <= idx,
        after == before.update(idx / 8, before[idx / 8] & !(1u8 << ((idx % 8) as u8))),
    ensures
        forall|k: int| 0 <= k < before.len() * 8 ==> #[trigger] byte_bit(after, k) == (byte_bit(before, k) && k != idx),
{
    assert forall|k: int| 0 <= k < before.len() * 8 implies #[trigger] byte_bit(after, k) == (byte_bit(before, k) && k != idx) by {
        if k / 8 == idx / 8 {
            let x = before[idx / 8];
            let b = (idx % 8) as u8;
            let c = (k % 8) as u8;
            crate::bits::lemma_u8_bits(x, b, c);
        }
    }
}

} // verus!
