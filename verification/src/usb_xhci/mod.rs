//! eXtensible Host Controller Interface (xHCI): the hardware records, the
//! command and event rings, the endpoint-context memory pools and the
//! per-device enumeration state, and the walk that splits a buffer into
//! physically contiguous pieces.
use vstd::prelude::*;
use crate::usb_xhci::memory_pools::bit;

pub mod command_ring;
pub mod device_state;
pub mod event_ring;
pub mod hw;
pub mod irq;
pub mod memory_pools;
pub mod phys_walk;
pub mod usb_host;

verus! {

proof fn lemma_shift_bit(v: u32, j: u32)
    requires
        j < 32,
    ensures
        ((v >> j) & 1u32 == 1u32) <==> (v & (1u32 << j) != 0),
        ((v >> j) & 1u32 == 0u32) <==> (v & (1u32 << j) == 0),
{
    crate::bits::lemma_u32_bit_test(v, j);
}

proof fn lemma_set_clear_word(x: u32, b: u32, c: u32)
    requires
        b < 32,
        c < 32,
    ensures
        (x | (1u32 << b)) & (1u32 << c) != 0 <==> (b == c || x & (1u32 << c) != 0),
        (x & !(1u32 << b)) & (1u32 << c) != 0 <==> (b != c && x & (1u32 << c) != 0),
{
    crate::bits::lemma_u32_set_bit(x, b, c);
    crate::bits::lemma_u32_clear_bit(x, b, c);
}

/// A set of 256 flags (ports with a pending status change).
pub struct AtomicBitset256(pub [u32; 8]);

impl AtomicBitset256 {
    /// Flag `i` is set.
    pub open spec fn has(&self, i: int) -> bool {
        0 <= i < 256 && bit(self.0@, i)
    }

    /// No flag set.
    pub fn new() -> (r: AtomicBitset256)
        ensures
            forall|i: int| !r.has(i),
    {
        let r = AtomicBitset256([0u32; 8]);
        assert forall|i: int| !r.has(i) by {
            if 0 <= i < 256 {
                let c = (i % 32) as u32;
                crate::bits::lemma_u32_bit_test(0, c);
            }
        }
        r
    }

    /// Set flag `idx`.
    pub fn set(&mut self, idx: u8)
        ensures
            forall|i: int| #[trigger] final(self).has(i) == (old(self).has(i) || i == idx),
    {
        let w = idx as usize / 32;
        let b = (idx % 32) as u32;
        let v = self.0[w];
        self.0[w] = v | (1u32 << b);
        proof {
            assert forall|i: int| #[trigger] self.has(i) == (old(self).has(i) || i == idx) by {
                if 0 <= i < 256 && i / 32 == w {
                    lemma_set_clear_word(v, b, (i % 32) as u32);
                }
            }
        }
    }

    /// Take the lowest set flag, clearing it.
    pub fn get_first_set_and_clear(&mut self) -> (r: Option<usize>)
        ensures
            match r {
                Some(k) => old(self).has(k as int) && (forall|j: int| 0 <= j < k ==> !old(self).has(j))
                    && forall|i: int| #[trigger] final(self).has(i) == (old(self).has(i) && i != k),
                None => (forall|i: int| !old(self).has(i)) && final(self).0 == old(self).0,
            },
    {
        let mut i: usize = 0;
        while i < 8
            invariant
                i <= 8,
                self.0 == old(self).0,
                forall|j: int| 0 <= j < 32 * i ==> !self.has(j),
            decreases 8 - i,
        {
            let v = self.0[i];
            if v != 0 {
                let j = v.trailing_zeros();
                proof {
                    vstd::std_specs::bits::axiom_u32_trailing_zeros(v);
                    lemma_shift_bit(v, j);
                }
                let k = i * 32 + j as usize;
                self.0[i] = v & !(1u32 << j);
                proof {
                    assert(k / 32 == i && k % 32 == j);
                    assert(old(self).has(k as int));
                    assert forall|m: int| 0 <= m < k implies !old(self).has(m) by {
                        if m >= 32 * i {
                            assert(m / 32 == i);
                            let c = (m % 32) as u32;
                            assert(c < j);
                            assert((v >> c) & 1u32 == 0u32);
                            lemma_shift_bit(v, c);
                        }
                    }
                    assert forall|m: int| #[trigger] self.has(m) == (old(self).has(m) && m != k) by {
                        if 0 <= m < 256 && m / 32 == i {
                            lemma_set_clear_word(v, j, (m % 32) as u32);
                        }
                    }
                }
                return Some(k);
            }
            proof {
                assert forall|j: int| 0 <= j < 32 * (i + 1) implies !self.has(j) by {
                    if j >= 32 * i {
                        let c = (j % 32) as u32;
                        crate::bits::lemma_u32_bit_test(0, c);
                    }
                }
            }
            i += 1;
        }
        None
    }
}

} // verus!
