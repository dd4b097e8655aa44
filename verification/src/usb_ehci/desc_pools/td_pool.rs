//! Transfer-descriptor pool: one page of 128 descriptors, a bitmap of the
//! ones in use, and for each the descriptor chained after it.
use vstd::prelude::*;
use crate::usb_ehci::desc_pools::{set_first_zero_bit, get_and_clear_bit, byte_bit, first_zero_choice, lowest_clear, lemma_lowest_clear};
use crate::usb_ehci::hw_structs::{TransferDesc, Pid, td_token};

verus! {

/// Descriptors in the pool.
pub const TD_COUNT: usize = 128;
/// Size of one descriptor, in bytes.
pub const TD_SIZE: usize = 32;

/// Owned handle to a transfer descriptor (stored as its index plus one).
#[derive(Debug)]
pub struct TdHandle(u16);

impl TdHandle {
    /// The stored value (index plus one).
    pub closed spec fn raw(&self) -> u16 {
        self.0
    }

    #[verifier::type_invariant]
    closed spec fn nonzero(&self) -> bool {
        self.0 != 0
    }

    /// Index of the descriptor.
    pub open spec fn index(&self) -> int {
        self.raw() - 1
    }

    /// The handle of descriptor `v`.
    pub fn new(v: usize) -> (r: TdHandle)
        requires
            v < 65535,
        ensures
            r.index() == v,
    {
        TdHandle((v + 1) as u16)
    }

    /// Index of the descriptor.
    pub fn idx(&self) -> (r: usize)
        ensures
            r == self.index(),
            0 <= self.index(),
    {
        proof {
            use_type_invariant(self);
        }
        self.0 as usize - 1
    }
}

/// Clear bits among the first `n` of a bitmap.
pub open spec fn free_upto(a: Seq<u8>, n: nat) -> nat
    decreases n,
{
    if n == 0 {
        0
    } else {
        free_upto(a, (n - 1) as nat) + if byte_bit(a, n - 1) { 0nat } else { 1nat }
    }
}

/// Setting a clear bit `r` takes one off the count of clear bits up to `n`
/// when `r` is below `n`.
proof fn lemma_free_upto_set(a: Seq<u8>, r: int, n: nat)
    requires
        a.len() == 16,
        0 <= r < 128,
        n <= 128,
        !byte_bit(a, r),
    ensures
        free_upto(a.update(r / 8, a[r / 8] | (1u8 << ((r % 8) as u8))), n) + (if r < n { 1int } else { 0int }) == free_upto(a, n),
    decreases n,
{
    if n > 0 {
        let b = a.update(r / 8, a[r / 8] | (1u8 << ((r % 8) as u8)));
        lemma_free_upto_set(a, r, (n - 1) as nat);
        let i = n - 1;
        if i / 8 == r / 8 {
            crate::bits::lemma_u8_bits(a[r / 8], (r % 8) as u8, (i % 8) as u8);
        }
        assert(byte_bit(b, i) == (byte_bit(a, i) || i == r));
    }
}

/// A bitmap with a clear bit has a byte that is not full.
pub(crate) proof fn lemma_free_upto_has_free(a: Seq<u8>, n: nat)
    requires
        a.len() == 16,
        n <= 128,
        free_upto(a, n) > 0,
    ensures
        exists|k: int| 0 <= k < 16 && #[trigger] a[k] != 0xFF,
    decreases n,
{
    let i = n - 1;
    if byte_bit(a, i) {
        lemma_free_upto_has_free(a, (n - 1) as nat);
    } else {
        crate::bits::lemma_u8_bits(a[i / 8], (i % 8) as u8, (i % 8) as u8);
        assert(a[i / 8] != 0xFF);
    }
}

/// What taking the free descriptor `r` does to the pool's bookkeeping: it
/// alone becomes in use, and one fewer is free.
pub open spec fn took_free(before: TdPool, r: int, after: TdPool) -> bool {
    &&& 0 <= r < TD_COUNT
    &&& !before.in_use(r)
    &&& after.in_use(r)
    &&& forall|i: int| 0 <= i < TD_COUNT && i != r ==> after.in_use(i) == before.in_use(i)
    &&& after.free_count() + 1 == before.free_count()
}

/// What giving back descriptor `r` does to the pool's bookkeeping: it alone
/// stops being in use, and one more is free.
pub open spec fn gave_back(before: TdPool, r: int, after: TdPool) -> bool {
    &&& !after.in_use(r)
    &&& forall|i: int| 0 <= i < TD_COUNT && i != r ==> after.in_use(i) == before.in_use(i)
    &&& after.free_count() == before.free_count() + 1
}

/// Releasing the descriptor an allocation returned leaves the pool with
/// the same descriptors in use, and as many free, as before the allocation.
pub proof fn lemma_release_undoes_allocate(p0: TdPool, r: int, p1: TdPool, p2: TdPool)
    requires
        took_free(p0, r, p1),
        gave_back(p1, r, p2),
    ensures
        forall|i: int| 0 <= i < TD_COUNT ==> #[trigger] p2.in_use(i) == p0.in_use(i),
        p2.free_count() == p0.free_count(),
{
}

/// The pool.
pub struct TdPool {
    /// Physical address of descriptor 0
    pub phys0: u32,
    /// Descriptors in use
    pub alloced: [u8; 16],
    /// Where the next search for a free descriptor starts
    pub next_start: usize,
    /// The descriptors
    pub data: Vec<TransferDesc>,
    /// For each descriptor, the one chained after it
    pub next: Vec<Option<TdHandle>>,
}

impl TdPool {
    pub open spec fn wf(&self) -> bool {
        &&& self.data@.len() == TD_COUNT
        &&& self.next@.len() == TD_COUNT
        &&& self.phys0 + TD_COUNT * TD_SIZE <= u32::MAX
        &&& self.phys0 % (TD_SIZE as u32) == 0
    }

    /// Descriptor `i` is in use.
    pub open spec fn in_use(&self, i: int) -> bool {
        byte_bit(self.alloced@, i)
    }

    /// Number of free descriptors.
    pub open spec fn free_count(&self) -> nat {
        free_upto(self.alloced@, 128)
    }

    /// Some descriptor is free.
    pub open spec fn has_free(&self) -> bool {
        exists|k: int| 0 <= k < 16 && #[trigger] self.alloced@[k] != 0xFF
    }

    /// An empty pool over the page at `phys0`.
    pub fn new(phys0: u32) -> (r: TdPool)
        requires
            phys0 + TD_COUNT * TD_SIZE <= u32::MAX,
            phys0 % (TD_SIZE as u32) == 0,
        ensures
            r.wf(),
            r.phys0 == phys0,
            r.alloced@ == seq![0u8; 16],
            r.next_start == 0,
    {
        let mut data: Vec<TransferDesc> = Vec::new();
        let mut next: Vec<Option<TdHandle>> = Vec::new();
        let mut i: usize = 0;
        while i < TD_COUNT
            invariant
                i <= TD_COUNT,
                data@.len() == i,
                next@.len() == i,
            decreases TD_COUNT - i,
        {
            data.push(TransferDesc { link: 1, link2: 1, token: 0, pages: [0u32; 5] });
            next.push(None);
            i += 1;
        }
        let r = TdPool { phys0, alloced: [0u8; 16], next_start: 0, data, next };
        assert(r.alloced@ =~= seq![0u8; 16]);
        r
    }

    /// Physical address of a descriptor.
    pub fn get_phys(&self, h: &TdHandle) -> (r: u32)
        requires
            self.wf(),
            h.index() < TD_COUNT,
        ensures
            r == self.phys0 + TD_SIZE * h.index(),
            r % (TD_SIZE as u32) == 0,
    {
        let i = h.idx();
        let p = self.phys0;
        assert((p as int + 32 * (i as int)) % 32 == 0) by (nonlinear_arith)
            requires
                p % 32 == 0,
        ;
        self.phys0 + (i * TD_SIZE) as u32
    }

    /// The descriptor.
    pub fn get_data(&self, h: &TdHandle) -> (r: &TransferDesc)
        requires
            self.wf(),
            h.index() < TD_COUNT,
        ensures
            *r == self.data@[h.index()],
    {
        &self.data[h.idx()]
    }

    /// The descriptor, for editing.
    pub fn get_data_mut(&mut self, h: &mut TdHandle) -> (r: &mut TransferDesc)
        requires
            old(self).wf(),
            old(h).index() < TD_COUNT,
        ensures
            *r == old(self).data@[old(h).index()],
            final(self).data@ == old(self).data@.update(old(h).index(), *final(r)),
            final(self).alloced == old(self).alloced,
            final(self).next_start == old(self).next_start,
            final(self).next@ == old(self).next@,
            final(self).phys0 == old(self).phys0,
            *final(h) == *old(h),
    {
        let i = h.idx();
        &mut self.data[i]
    }

    /// Store `v` in a free descriptor, chained to `next`: the first free
    /// one from the last allocation onwards, else the first free one.
    pub fn alloc_raw(&mut self, v: TransferDesc, next: Option<TdHandle>) -> (r: TdHandle)
        requires
            old(self).wf(),
            old(self).has_free(),
        ensures
            final(self).wf(),
            first_zero_choice(old(self).alloced@, old(self).next_start as int, r.index() / 8),
            r.index() % 8 == lowest_clear(old(self).alloced@[r.index() / 8]),
            final(self).alloced@ == old(self).alloced@.update(
                r.index() / 8,
                old(self).alloced@[r.index() / 8] | (1u8 << ((r.index() % 8) as u8)),
            ),
            final(self).next_start == r.index() + 1,
            final(self).data@ == old(self).data@.update(r.index(), v),
            final(self).next@ == old(self).next@.update(r.index(), next),
            final(self).phys0 == old(self).phys0,
    {
        let start = self.next_start;
        match set_first_zero_bit(&mut self.alloced, start) {
            Some(i) => {
                proof {
                    assert(i / 8 < 16);
                }
                self.next_start = i + 1;
                let rv = TdHandle::new(i);
                self.data.set(i, v);
                self.next.set(i, next);
                rv
            },
            None => {
                proof {
                    let k = choose|k: int| 0 <= k < 16 && #[trigger] old(self).alloced@[k] != 0xFF;
                    assert(old(self).alloced@[k] == 0xFF);
                }
                TdHandle::new(0)
            },
        }
    }

    /// Allocate a descriptor for a transfer of `data_len` bytes whose
    /// buffer starts at physical `phys0` (and continues at `phys1`), linked
    /// to `next` (or terminating the chain).
    pub fn allocate(&mut self, packet_id: Pid, data_len: usize, phys0: u32, phys1: u32, next: Option<TdHandle>) -> (r: TdHandle)
        requires
            old(self).wf(),
            old(self).has_free(),
            data_len < 0x1000,
            next matches Some(n) ==> n.index() < TD_COUNT,
        ensures
            final(self).wf(),
            final(self).phys0 == old(self).phys0,
            took_free(*old(self), r.index(), *final(self)),
            final(self).data@ == old(self).data@.update(r.index(), TransferDesc {
                link: match next {
                    Some(n) => (old(self).phys0 + TD_SIZE * n.index()) as u32,
                    None => 1,
                },
                link2: 1,
                token: td_token(packet_id, data_len as u32),
                pages: [phys0, phys1, 0, 0, 0],
            }),
            final(self).next@ == old(self).next@.update(r.index(), next),
    {
        let ghost a = self.alloced@;
        let link = match &next {
            Some(n) => self.get_phys(n),
            None => 1,
        };
        let v = TransferDesc {
            link,
            link2: 1,
            token: (packet_id.code() << 8) | ((data_len as u32) << 16),
            pages: [phys0, phys1, 0, 0, 0],
        };
        let r = self.alloc_raw(v, next);
        proof {
            let i = r.index();
            lemma_lowest_clear(a[i / 8]);
            assert(!byte_bit(a, i));
            lemma_free_upto_set(a, i, 128);
            assert forall|j: int| 0 <= j < TD_COUNT && j != i implies self.in_use(j) == byte_bit(a, j) by {
                if j / 8 == i / 8 {
                    crate::bits::lemma_u8_bits(a[i / 8], (i % 8) as u8, (j % 8) as u8);
                }
            }
            crate::bits::lemma_u8_bits(a[i / 8], (i % 8) as u8, (i % 8) as u8);
        }
        r
    }

    /// Return a descriptor to the pool, handing back the one chained after it.
    pub fn release(&mut self, handle: TdHandle) -> (r: Option<TdHandle>)
        requires
            old(self).wf(),
            handle.index() < TD_COUNT,
            old(self).in_use(handle.index()),
        ensures
            final(self).wf(),
            r == old(self).next@[handle.index()],
            final(self).next@ == old(self).next@.update(handle.index(), None),
            final(self).alloced@ == old(self).alloced@.update(
                handle.index() / 8,
                old(self).alloced@[handle.index() / 8] & !(1u8 << ((handle.index() % 8) as u8)),
            ),
            final(self).data@ == old(self).data@,
            final(self).next_start == old(self).next_start,
            final(self).phys0 == old(self).phys0,
            gave_back(*old(self), handle.index(), *final(self)),
    {
        let ghost a = self.alloced@;
        let idx = handle.idx();
        let rv = self.next[idx].take();
        let was = get_and_clear_bit(&mut self.alloced, idx);
        assert(was);
        proof {
            assert forall|j: int| 0 <= j < TD_COUNT implies self.in_use(j) == (byte_bit(a, j) && j != idx) by {
                if j / 8 == idx / 8 {
                    crate::bits::lemma_u8_bits(a[(idx / 8) as int], (idx % 8) as u8, (j % 8) as u8);
                }
            }
            let b = self.alloced@;
            let k = (idx / 8) as int;
            crate::bits::lemma_u8_bits(a[k], (idx % 8) as u8, (idx % 8) as u8);
            assert(b.update(k, b[k] | (1u8 << ((idx % 8) as u8))) =~= a);
            lemma_free_upto_set(b, idx as int, 128);
        }
        rv
    }

    /// Index of the descriptor at a physical address.
    pub fn get_idx_from_phys(&self, addr: u32) -> (r: usize)
        requires
            addr >= self.phys0,
            (addr - self.phys0) / (TD_SIZE as int) < TD_COUNT,
        ensures
            r == (addr - self.phys0) / (TD_SIZE as int),
    {
        ((addr - self.phys0) / TD_SIZE as u32) as usize
    }
}

/// Where a transfer's second buffer page starts, when the buffer needs one:
/// the offset into the data of the page base of its first byte's address
/// (used only when the data is at least that long).
pub fn second_page_offset(phys0: u64, data_len: usize) -> (r: Option<usize>)
    ensures
        (data_len < phys0 - phys0 % 0x1000) ==> r is None,
        !(data_len < phys0 - phys0 % 0x1000) ==> r == Some((phys0 - phys0 % 0x1000) as usize),
{
    let tail = phys0 - phys0 % 0x1000;
    if (data_len as u64) < tail {
        None
    } else {
        Some(tail as usize)
    }
}

} // verus!
