//! Buffer pool for interrupt endpoints: one page split into
//! `max_packet_size` buffers, with a bitmap of the ones in use kept in the
//! page's last word.
use vstd::prelude::*;
use vstd::std_specs::bits::u32_trailing_zeros;

verus! {

/// Bytes of the page usable for buffers.
pub const BUFFER_SPACE: usize = 4092;

/// Number of buffers a page holds for a packet size (at most 32).
pub open spec fn max_buffers(max_packet_size: usize) -> int {
    if BUFFER_SPACE / max_packet_size < 32 { (BUFFER_SPACE / max_packet_size) as int } else { 32 }
}

/// The buffers of one interrupt endpoint.
pub struct InterruptBuffers {
    /// Physical address of the page
    pub page_phys: u32,
    pub max_packet_size: usize,
    /// Buffers in use
    pub bitset: u32,
}

/// A buffer being filled by the controller.
pub struct FillingHandle {
    /// Offset of the buffer in the page
    pub offset: usize,
    pub cap: usize,
}

/// A buffer the controller has filled.
pub struct FilledHandle {
    pub offset: usize,
    pub cap: u16,
    pub len: u16,
}

/// What taking a buffer does: the lowest free buffer the page can hold is
/// handed out and marked used; when there is none, nothing changes.
pub open spec fn get_buffer_result(before: InterruptBuffers, r: Option<FillingHandle>, after: InterruptBuffers) -> bool {
    match r {
        Some(h) => {
            let i = (h.offset / before.max_packet_size) as u32;
            &&& i < max_buffers(before.max_packet_size)
            &&& h.offset == i * before.max_packet_size
            &&& h.cap == before.max_packet_size
            &&& !before.used(i)
            &&& forall|j: u32| j < i ==> before.used(j)
            &&& after.bitset == before.bitset | (1u32 << i)
        },
        None => after.bitset == before.bitset && forall|j: u32|
            j < max_buffers(before.max_packet_size) ==> before.used(j),
    }
}

/// What handing back the buffer at `offset` (of `size` bytes) does.
pub open spec fn drop_result(before: InterruptBuffers, offset: usize, size: usize, after: InterruptBuffers) -> bool {
    &&& after.bitset == before.bitset & !(1u32 << ((offset / size) as u32))
    &&& after.max_packet_size == before.max_packet_size
    &&& after.page_phys == before.page_phys
}

impl InterruptBuffers {
    pub open spec fn wf(&self) -> bool {
        &&& 0 < self.max_packet_size
        &&& self.page_phys + 0x1000 <= u32::MAX
    }

    /// Buffer `i` is in use.
    pub open spec fn used(&self, i: u32) -> bool {
        self.bitset & (1u32 << i) != 0
    }

    /// An empty pool of `max_packet_size` buffers in the page at `page_phys`.
    pub fn new(max_packet_size: usize, page_phys: u32) -> (r: InterruptBuffers)
        requires
            0 < max_packet_size,
            page_phys + 0x1000 <= u32::MAX,
        ensures
            r.wf(),
            r.max_packet_size == max_packet_size,
            r.page_phys == page_phys,
            r.bitset == 0,
    {
        InterruptBuffers { page_phys, max_packet_size, bitset: 0 }
    }

    /// Size of each buffer.
    pub fn max_packet_size(&self) -> (r: usize)
        ensures
            r == self.max_packet_size,
    {
        self.max_packet_size
    }

    /// Take the lowest free buffer, if it is one the page can hold.
    pub fn get_buffer(&mut self) -> (r: Option<FillingHandle>)
        requires
            old(self).wf(),
        ensures
            final(self).wf(),
            final(self).max_packet_size == old(self).max_packet_size,
            final(self).page_phys == old(self).page_phys,
            get_buffer_result(*old(self), r, *final(self)),
    {
        let c = BUFFER_SPACE / self.max_packet_size;
        let max_count: usize = if c < 32 { c } else { 32 };
        let v = self.bitset;
        let nv = !v;
        if v == !0u32 {
            proof {
                assert forall|j: u32| j < 32 implies (v & (1u32 << j)) != 0 by {
                    crate::bits::lemma_u32_bit_test(v, j);
                }
            }
            return None;
        }
        let i = nv.trailing_zeros();
        proof {
            vstd::std_specs::bits::axiom_u32_trailing_zeros(nv);
            crate::bits::lemma_u32_bit_test(v, 0);
        }
        let ghost ii = i;
        proof {
            assert((nv >> ii) & 1u32 == 1u32);
            crate::bits::lemma_u32_bit_test(v, ii);
            assert forall|j: u32| j < ii implies (v & (1u32 << j)) != 0 by {
                assert((nv >> j) & 1u32 == 0u32);
                crate::bits::lemma_u32_bit_test(v, j);
            }
        }
        if i as usize >= max_count {
            return None;
        }
        let mask = 1u32 << i;
        self.bitset = v | mask;
        let mps = self.max_packet_size;
        proof {
            assert(i * mps <= BUFFER_SPACE) by (nonlinear_arith)
                requires
                    i < c,
                    c == BUFFER_SPACE / mps,
                    mps > 0,
            ;
        }
        let offset = i as usize * mps;
        proof {
            assert(offset / mps == i) by (nonlinear_arith)
                requires
                    offset == i * mps,
                    mps > 0,
            ;
        }
        Some(FillingHandle { offset, cap: self.max_packet_size })
    }

    /// Return the buffer at `offset` (of `size` bytes) to the pool.
    pub fn drop_handle(&mut self, offset: usize, size: usize)
        requires
            size > 0,
            offset / size < 32,
        ensures
            drop_result(*old(self), offset, size, *final(self)),
    {
        let idx = (offset / size) as u32;
        self.bitset = self.bitset & !(1u32 << idx);
    }
}

/// Handing back the buffer that was just taken restores the pool as it
/// was before.
pub proof fn lemma_drop_undoes_get(b0: InterruptBuffers, h: FillingHandle, b1: InterruptBuffers, b2: InterruptBuffers)
    requires
        b0.wf(),
        get_buffer_result(b0, Some(h), b1),
        drop_result(b1, h.offset, b0.max_packet_size, b2),
        b1.max_packet_size == b0.max_packet_size,
        b1.page_phys == b0.page_phys,
    ensures
        b2 == b0,
{
    let i = (h.offset / b0.max_packet_size) as u32;
    assert(i < 32);
    crate::bits::lemma_u32_clear_bit(b0.bitset, i, i);
}

impl FillingHandle {
    /// Physical addresses of the first and last bytes of the buffer.
    pub fn get_phys_range(&self, page_phys: u32) -> (r: (u32, u32))
        requires
            self.cap > 0,
            page_phys + self.offset + self.cap <= u32::MAX,
        ensures
            r == ((page_phys + self.offset) as u32, (page_phys + self.offset + self.cap - 1) as u32),
    {
        let first = page_phys + self.offset as u32;
        (first, first + (self.cap - 1) as u32)
    }

    /// The controller is done: `len` bytes were received.
    pub fn filled(self, len: usize) -> (r: FilledHandle)
        requires
            len <= self.cap,
            self.cap <= u16::MAX,
        ensures
            r.offset == self.offset,
            r.cap == self.cap,
            r.len == len,
    {
        FilledHandle { offset: self.offset, cap: self.cap as u16, len: len as u16 }
    }
}

impl FilledHandle {
    /// Range of the received bytes within the page.
    pub fn get(&self) -> (r: (usize, usize))
        requires
            self.offset + self.len <= usize::MAX,
        ensures
            r == (self.offset, (self.offset + self.len) as usize),
    {
        (self.offset, self.offset + self.len as usize)
    }
}

} // verus!
