//! Pools of hardware-accessible memory handed out in 32-byte slots, with the
//! allocation state kept as bitmaps.
use vstd::prelude::*;

verus! {

/// Number of general pool pages.
pub const N_PAGES: usize = 4;
/// Size of one allocation slot, in bytes.
pub const SLOT_SIZE: usize = 0x20;
/// Slots in one page.
pub const N_SLOTS_PER_PAGE: usize = 128;
/// Index of the first slot of pool zero (the second half of the DCBAA page).
pub const POOL0_SLOTS: usize = 64;

/// Bit `idx` of a bitmap stored as 32-bit words.
pub open spec fn bit(d: Seq<u32>, idx: int) -> bool {
    d[idx / 32] & (1u32 << ((idx % 32) as u32)) != 0
}

/// Number of bits in a bitmap.
pub open spec fn nbits(d: Seq<u32>) -> int {
    d.len() as int * 32
}

/// Some bit of the window of `n` bits at `ofs` (within the bitmap) is set.
pub open spec fn window_blocked(d: Seq<u32>, ofs: int, n: int) -> bool {
    exists|k: int| ofs <= k < ofs + n && k < nbits(d) && #[trigger] bit(d, k)
}

/// The first window that is not blocked starts at `ofs`.
pub open spec fn first_unblocked(d: Seq<u32>, n: int, ofs: int) -> bool {
    &&& 0 <= ofs < nbits(d)
    &&& forall|o: int| 0 <= o < ofs ==> window_blocked(d, o, n)
    &&& !window_blocked(d, ofs, n)
}

/// `n` free bits fit at `ofs`, and at no earlier offset.
pub open spec fn first_fit(d: Seq<u32>, n: int, ofs: int) -> bool {
    first_unblocked(d, n, ofs) && ofs + n <= nbits(d)
}

/// No window of the bitmap is free.
pub open spec fn no_fit(d: Seq<u32>, n: int) -> bool {
    forall|o: int| 0 <= o < nbits(d) ==> window_blocked(d, o, n)
}

/// The scan for a free window runs past the end of the bitmap: the first
/// window that is not blocked by a set bit does not fit.
pub open spec fn scan_faults(d: Seq<u32>, n: int) -> bool {
    exists|ofs: int| first_unblocked(d, n, ofs) && ofs + n > nbits(d)
}

/// `after` is `before` with the window `ofs .. ofs + n` set.
pub open spec fn bits_set(before: Seq<u32>, after: Seq<u32>, ofs: int, n: int) -> bool {
    &&& after.len() == before.len()
    &&& forall|k: int| 0 <= k < nbits(before) ==> #[trigger] bit(after, k) == (bit(before, k) || (
    ofs <= k < ofs + n))
}

/// `after` is `before` with the window `ofs .. ofs + n` cleared.
pub open spec fn bits_cleared(before: Seq<u32>, after: Seq<u32>, ofs: int, n: int) -> bool {
    &&& after.len() == before.len()
    &&& forall|k: int| 0 <= k < nbits(before) ==> #[trigger] bit(after, k) == (bit(before, k) && !(
    ofs <= k < ofs + n))
}

/// Every bit of the window `ofs .. ofs + n` is inside the bitmap and set.
pub open spec fn window_all_set(d: Seq<u32>, ofs: int, n: int) -> bool {
    &&& (n <= 0 || ofs + n <= nbits(d))
    &&& forall|k: int| ofs <= k < ofs + n ==> #[trigger] bit(d, k)
}

/// Clearing a window does not run off the bitmap (or past 255) before it
/// meets a clear bit.
pub open spec fn clear_in_range(d: Seq<u32>, ofs: int, n: int) -> bool {
    forall|i: int|
        0 <= i < n && #[trigger] window_all_set(d, ofs, i) ==> ofs + i < 256 && ofs + i < nbits(d)
}

proof fn lemma_word_bits(x: u32, b: u32, c: u32)
    requires
        b < 32,
        c < 32,
    ensures
        (x | (1u32 << b)) & (1u32 << c) != 0 <==> (b == c || x & (1u32 << c) != 0),
        (x & !(1u32 << b)) & (1u32 << c) != 0 <==> (b != c && x & (1u32 << c) != 0),
{
    crate::bits::lemma_u32_set_bit(x, b, c);
    crate::bits::lemma_u32_clear_bit(x, b, c);
}

/// Two words with the same 32 bits are equal.
proof fn lemma_word_ext(x: u32, y: u32)
    requires
        forall|c: u32| c < 32 ==> (#[trigger] (x & (1u32 << c)) != 0) == (y & (1u32 << c) != 0),
    ensures
        x == y,
{
    assert((x & (1u32 << 0u32) != 0) == (y & (1u32 << 0u32) != 0));
    assert((x & (1u32 << 1u32) != 0) == (y & (1u32 << 1u32) != 0));
    assert((x & (1u32 << 2u32) != 0) == (y & (1u32 << 2u32) != 0));
    assert((x & (1u32 << 3u32) != 0) == (y & (1u32 << 3u32) != 0));
    assert((x & (1u32 << 4u32) != 0) == (y & (1u32 << 4u32) != 0));
    assert((x & (1u32 << 5u32) != 0) == (y & (1u32 << 5u32) != 0));
    assert((x & (1u32 << 6u32) != 0) == (y & (1u32 << 6u32) != 0));
    assert((x & (1u32 << 7u32) != 0) == (y & (1u32 << 7u32) != 0));
    assert((x & (1u32 << 8u32) != 0) == (y & (1u32 << 8u32) != 0));
    assert((x & (1u32 << 9u32) != 0) == (y & (1u32 << 9u32) != 0));
    assert((x & (1u32 << 10u32) != 0) == (y & (1u32 << 10u32) != 0));
    assert((x & (1u32 << 11u32) != 0) == (y & (1u32 << 11u32) != 0));
    assert((x & (1u32 << 12u32) != 0) == (y & (1u32 << 12u32) != 0));
    assert((x & (1u32 << 13u32) != 0) == (y & (1u32 << 13u32) != 0));
    assert((x & (1u32 << 14u32) != 0) == (y & (1u32 << 14u32) != 0));
    assert((x & (1u32 << 15u32) != 0) == (y & (1u32 << 15u32) != 0));
    assert((x & (1u32 << 16u32) != 0) == (y & (1u32 << 16u32) != 0));
    assert((x & (1u32 << 17u32) != 0) == (y & (1u32 << 17u32) != 0));
    assert((x & (1u32 << 18u32) != 0) == (y & (1u32 << 18u32) != 0));
    assert((x & (1u32 << 19u32) != 0) == (y & (1u32 << 19u32) != 0));
    assert((x & (1u32 << 20u32) != 0) == (y & (1u32 << 20u32) != 0));
    assert((x & (1u32 << 21u32) != 0) == (y & (1u32 << 21u32) != 0));
    assert((x & (1u32 << 22u32) != 0) == (y & (1u32 << 22u32) != 0));
    assert((x & (1u32 << 23u32) != 0) == (y & (1u32 << 23u32) != 0));
    assert((x & (1u32 << 24u32) != 0) == (y & (1u32 << 24u32) != 0));
    assert((x & (1u32 << 25u32) != 0) == (y & (1u32 << 25u32) != 0));
    assert((x & (1u32 << 26u32) != 0) == (y & (1u32 << 26u32) != 0));
    assert((x & (1u32 << 27u32) != 0) == (y & (1u32 << 27u32) != 0));
    assert((x & (1u32 << 28u32) != 0) == (y & (1u32 << 28u32) != 0));
    assert((x & (1u32 << 29u32) != 0) == (y & (1u32 << 29u32) != 0));
    assert((x & (1u32 << 30u32) != 0) == (y & (1u32 << 30u32) != 0));
    assert((x & (1u32 << 31u32) != 0) == (y & (1u32 << 31u32) != 0));
    assert(x == y) by (bit_vector)
        requires
            (x & (1u32 << 0u32) != 0) == (y & (1u32 << 0u32) != 0),
            (x & (1u32 << 1u32) != 0) == (y & (1u32 << 1u32) != 0),
            (x & (1u32 << 2u32) != 0) == (y & (1u32 << 2u32) != 0),
            (x & (1u32 << 3u32) != 0) == (y & (1u32 << 3u32) != 0),
            (x & (1u32 << 4u32) != 0) == (y & (1u32 << 4u32) != 0),
            (x & (1u32 << 5u32) != 0) == (y & (1u32 << 5u32) != 0),
            (x & (1u32 << 6u32) != 0) == (y & (1u32 << 6u32) != 0),
            (x & (1u32 << 7u32) != 0) == (y & (1u32 << 7u32) != 0),
            (x & (1u32 << 8u32) != 0) == (y & (1u32 << 8u32) != 0),
            (x & (1u32 << 9u32) != 0) == (y & (1u32 << 9u32) != 0),
            (x & (1u32 << 10u32) != 0) == (y & (1u32 << 10u32) != 0),
            (x & (1u32 << 11u32) != 0) == (y & (1u32 << 11u32) != 0),
            (x & (1u32 << 12u32) != 0) == (y & (1u32 << 12u32) != 0),
            (x & (1u32 << 13u32) != 0) == (y & (1u32 << 13u32) != 0),
            (x & (1u32 << 14u32) != 0) == (y & (1u32 << 14u32) != 0),
            (x & (1u32 << 15u32) != 0) == (y & (1u32 << 15u32) != 0),
            (x & (1u32 << 16u32) != 0) == (y & (1u32 << 16u32) != 0),
            (x & (1u32 << 17u32) != 0) == (y & (1u32 << 17u32) != 0),
            (x & (1u32 << 18u32) != 0) == (y & (1u32 << 18u32) != 0),
            (x & (1u32 << 19u32) != 0) == (y & (1u32 << 19u32) != 0),
            (x & (1u32 << 20u32) != 0) == (y & (1u32 << 20u32) != 0),
            (x & (1u32 << 21u32) != 0) == (y & (1u32 << 21u32) != 0),
            (x & (1u32 << 22u32) != 0) == (y & (1u32 << 22u32) != 0),
            (x & (1u32 << 23u32) != 0) == (y & (1u32 << 23u32) != 0),
            (x & (1u32 << 24u32) != 0) == (y & (1u32 << 24u32) != 0),
            (x & (1u32 << 25u32) != 0) == (y & (1u32 << 25u32) != 0),
            (x & (1u32 << 26u32) != 0) == (y & (1u32 << 26u32) != 0),
            (x & (1u32 << 27u32) != 0) == (y & (1u32 << 27u32) != 0),
            (x & (1u32 << 28u32) != 0) == (y & (1u32 << 28u32) != 0),
            (x & (1u32 << 29u32) != 0) == (y & (1u32 << 29u32) != 0),
            (x & (1u32 << 30u32) != 0) == (y & (1u32 << 30u32) != 0),
            (x & (1u32 << 31u32) != 0) == (y & (1u32 << 31u32) != 0),
    ;
}

/// Two bitmaps of the same length with the same bits are equal.
pub proof fn lemma_bitmap_ext(a: Seq<u32>, b: Seq<u32>)
    requires
        a.len() == b.len(),
        forall|k: int| 0 <= k < nbits(a) ==> #[trigger] bit(a, k) == bit(b, k),
    ensures
        a == b,
{
    assert forall|w: int| 0 <= w < a.len() implies a[w] == b[w] by {
        assert forall|c: u32| c < 32 implies (#[trigger] (a[w] & (1u32 << c)) != 0) == (b[w] & (1u32
            << c) != 0) by {
            let k = w * 32 + c;
            assert(k / 32 == w && k % 32 == c);
            assert(bit(a, k) == bit(b, k));
        }
        lemma_word_ext(a[w], b[w]);
    }
    assert(a =~= b);
}

/// Setting bit `idx` of word `idx / 32` changes exactly that bit.
proof fn lemma_set_one(before: Seq<u32>, after: Seq<u32>, idx: int)
    requires
        0 <= idx < nbits(before),
        after == before.update(idx / 32, before[idx / 32] | (1u32 << ((idx % 32) as u32))),
    ensures
        forall|k: int| 0 <= k < nbits(before) ==> #[trigger] bit(after, k) == (bit(before, k) || k
            == idx),
{
    assert forall|k: int| 0 <= k < nbits(before) implies #[trigger] bit(after, k) == (bit(
        before,
        k,
    ) || k == idx) by {
        if k / 32 == idx / 32 {
            lemma_word_bits(before[idx / 32], (idx % 32) as u32, (k % 32) as u32);
        }
    }
}

/// Clearing bit `idx` of word `idx / 32` changes exactly that bit.
proof fn lemma_clear_one(before: Seq<u32>, after: Seq<u32>, idx: int)
    requires
        0 <= idx < nbits(before),
        after == before.update(idx / 32, before[idx / 32] & !(1u32 << ((idx % 32) as u32))),
    ensures
        forall|k: int| 0 <= k < nbits(before) ==> #[trigger] bit(after, k) == (bit(before, k) && k
            != idx),
{
    assert forall|k: int| 0 <= k < nbits(before) implies #[trigger] bit(after, k) == (bit(
        before,
        k,
    ) && k != idx) by {
        if k / 32 == idx / 32 {
            lemma_word_bits(before[idx / 32], (idx % 32) as u32, (k % 32) as u32);
        }
    }
}

proof fn lemma_window_prefix(d: Seq<u32>, ofs: int, i: int, n: int)
    requires
        window_all_set(d, ofs, n),
        0 <= i <= n,
    ensures
        window_all_set(d, ofs, i),
{
    assert forall|k: int| ofs <= k < ofs + i implies #[trigger] bit(d, k) by {
        assert(ofs <= k < ofs + n);
    }
}

/// Find the first run of `n_blocks` clear bits, set it, and return its offset.
pub fn find_and_set(data: &mut [u32], n_blocks: u8) -> (r: Option<usize>)
    requires
        old(data)@.len() * 32 + 256 <= usize::MAX,
        !scan_faults(old(data)@, n_blocks as int),
    ensures
        match r {
            Some(ofs) => first_fit(old(data)@, n_blocks as int, ofs as int) && bits_set(
                old(data)@,
                final(data)@,
                ofs as int,
                n_blocks as int,
            ),
            None => no_fit(old(data)@, n_blocks as int) && final(data)@ == old(data)@,
        },
{
    let ghost d0 = data@;
    let n = n_blocks as usize;
    let total = data.len() * 32;
    let mut ofs: usize = 0;
    while ofs < total
        invariant
            d0 == old(data)@,
            data@ == d0,
            total == nbits(d0),
            n == n_blocks,
            ofs <= total,
            total + 256 <= usize::MAX,
            !scan_faults(d0, n as int),
            forall|o: int| 0 <= o < ofs ==> window_blocked(d0, o, n as int),
        decreases total - ofs,
    {
        let mut i: usize = 0;
        let mut blocked = false;
        while i < n && !blocked
            invariant
                data@ == d0,
                total == nbits(d0),
                n == n_blocks,
                ofs < total,
                i <= n,
                !scan_faults(d0, n as int),
                forall|o: int| 0 <= o < ofs ==> window_blocked(d0, o, n as int),
                blocked ==> window_blocked(d0, ofs as int, n as int),
                total + 256 <= usize::MAX,
                !blocked ==> ofs + i <= total,
                !blocked ==> forall|k: int| ofs <= k < ofs + i ==> !#[trigger] bit(d0, k),
            decreases n - i + (if blocked { 0int } else { 1int }),
        {
            let idx = ofs + i;
            proof {
                if idx >= total {
                    assert(!window_blocked(d0, ofs as int, n as int));
                    assert(first_unblocked(d0, n as int, ofs as int));
                    assert(false);
                }
            }
            if data[idx / 32] & (1u32 << ((idx % 32) as u32)) != 0 {
                assert(bit(d0, ofs + i));
                blocked = true;
            } else {
                assert(!bit(d0, ofs + i));
                i += 1;
            }
        }
        if !blocked {
            proof {
                assert(!window_blocked(d0, ofs as int, n as int));
                assert(first_unblocked(d0, n as int, ofs as int));
                assert(ofs + n <= total);
            }
            let mut j: usize = 0;
            while j < n
                invariant
                    data@.len() == d0.len(),
                    total == nbits(d0),
                    ofs + n <= total,
                    j <= n,
                    bits_set(d0, data@, ofs as int, j as int),
                decreases n - j,
            {
                let idx = ofs + j;
                let ghost before = data@;
                let w = data[idx / 32];
                data[idx / 32] = w | (1u32 << ((idx % 32) as u32));
                proof {
                    lemma_set_one(before, data@, idx as int);
                }
                j += 1;
            }
            return Some(ofs);
        }
        ofs += 1;
    }
    None
}

/// Clear the window of `n_blocks` bits at `ofs`, but only if all of them are
/// set; returns whether it did.
pub fn clear_bits(data: &mut [u32], ofs: u8, n_blocks: u8) -> (r: bool)
    requires
        old(data)@.len() * 32 <= usize::MAX,
        clear_in_range(old(data)@, ofs as int, n_blocks as int),
    ensures
        r == window_all_set(old(data)@, ofs as int, n_blocks as int),
        r ==> bits_cleared(old(data)@, final(data)@, ofs as int, n_blocks as int),
        !r ==> final(data)@ == old(data)@,
{
    let ghost d0 = data@;
    let total = data.len() * 32;
    let mut i: u8 = 0;
    while i < n_blocks
        invariant
            data@ == d0,
            d0 == old(data)@,
            total == nbits(d0),
            i <= n_blocks,
            clear_in_range(d0, ofs as int, n_blocks as int),
            window_all_set(d0, ofs as int, i as int),
        decreases n_blocks - i,
    {
        assert(ofs + i < 256 && ofs + i < nbits(d0));
        let idx = (ofs + i) as usize;
        if data[idx / 32] & (1u32 << ((idx % 32) as u32)) == 0 {
            assert(!bit(d0, ofs + i));
            return false;
        }
        i += 1;
    }
    let mut i: u8 = 0;
    while i < n_blocks
        invariant
            data@.len() == d0.len(),
            total == nbits(d0),
            i <= n_blocks,
            window_all_set(d0, ofs as int, n_blocks as int),
            clear_in_range(d0, ofs as int, n_blocks as int),
            bits_cleared(d0, data@, ofs as int, i as int),
        decreases n_blocks - i,
    {
        assert(ofs + i < 256 && ofs + i < nbits(d0)) by {
            lemma_window_prefix(d0, ofs as int, i as int, n_blocks as int);
        }
        let idx = (ofs + i) as usize;
        let ghost before = data@;
        let w = data[idx / 32];
        data[idx / 32] = w & !(1u32 << ((idx % 32) as u32));
        proof {
            lemma_clear_one(before, data@, idx as int);
        }
        i += 1;
    }
    true
}

/// The first window that is not blocked does not fit (the scan of
/// [`find_and_set`] would run off the bitmap).
pub fn scan_would_fault(data: &[u32], n_blocks: u8) -> (r: bool)
    requires
        data@.len() * 32 + 256 <= usize::MAX,
    ensures
        r == scan_faults(data@, n_blocks as int),
{
    match first_unblocked_exec(data, n_blocks) {
        Some(ofs) => ofs + n_blocks as usize > data.len() * 32,
        None => false,
    }
}

/// No window of the bitmap is free.
pub fn no_fit_exec(data: &[u32], n_blocks: u8) -> (r: bool)
    requires
        data@.len() * 32 + 256 <= usize::MAX,
        !scan_faults(data@, n_blocks as int),
    ensures
        r == no_fit(data@, n_blocks as int),
{
    match first_unblocked_exec(data, n_blocks) {
        Some(ofs) => {
            assert(!window_blocked(data@, ofs as int, n_blocks as int));
            false
        },
        None => true,
    }
}

/// The first offset whose window holds no set bit (inside the bitmap).
fn first_unblocked_exec(data: &[u32], n_blocks: u8) -> (r: Option<usize>)
    requires
        data@.len() * 32 + 256 <= usize::MAX,
    ensures
        match r {
            Some(ofs) => first_unblocked(data@, n_blocks as int, ofs as int),
            None => no_fit(data@, n_blocks as int),
        },
        r is None <==> no_fit(data@, n_blocks as int),
        (forall|o: int| #[trigger] first_unblocked(data@, n_blocks as int, o) ==> r == Some(o as usize)),
{
    let n = n_blocks as usize;
    let total = data.len() * 32;
    let mut ofs: usize = 0;
    while ofs < total
        invariant
            total == nbits(data@),
            total + 256 <= usize::MAX,
            n == n_blocks,
            ofs <= total,
            forall|o: int| 0 <= o < ofs ==> window_blocked(data@, o, n as int),
        decreases total - ofs,
    {
        let mut i: usize = 0;
        let mut blocked = false;
        while i < n && !blocked && ofs + i < total
            invariant
                total == nbits(data@),
                total + 256 <= usize::MAX,
                n == n_blocks,
                ofs < total,
                i <= n,
                blocked ==> window_blocked(data@, ofs as int, n as int),
                !blocked ==> forall|k: int| ofs <= k < ofs + i ==> !#[trigger] bit(data@, k),
            decreases n - i + (if blocked { 0int } else { 1int }),
        {
            let idx = ofs + i;
            if data[idx / 32] & (1u32 << ((idx % 32) as u32)) != 0 {
                assert(bit(data@, ofs + i));
                blocked = true;
            } else {
                i += 1;
            }
        }
        if !blocked {
            assert(!window_blocked(data@, ofs as int, n as int));
            proof {
                assert forall|o: int| #[trigger] first_unblocked(data@, n as int, o) implies o == ofs by {
                    if o < ofs {
                        assert(window_blocked(data@, o, n as int));
                    }
                    if o > ofs {
                        assert(window_blocked(data@, ofs as int, n as int));
                    }
                }
            }
            return Some(ofs);
        }
        ofs += 1;
    }
    proof {
        assert forall|o: int| #[trigger] first_unblocked(data@, n as int, o) implies false by {
            assert(window_blocked(data@, o, n as int));
        }
    }
    None
}

/// Allocation bitmaps: pool zero has 64 slots, the other pools 128 each.
#[derive(Copy, Clone)]
pub struct Used {
    pub pool0: [u32; 2],
    pub pools: [[u32; 4]; 4],
}

/// The bitmap of pool `p` (0 to 4).
pub open spec fn pool_bits(u: Used, p: int) -> Seq<u32> {
    if p == 0 {
        u.pool0@
    } else {
        u.pools[p - 1]@
    }
}

/// The scan that an allocation of `n` slots makes runs off one of the bitmaps
/// it visits.
pub open spec fn alloc_faults(u: Used, n: int) -> bool {
    exists|p: int|
        0 <= p <= 4 && (forall|q: int| 0 <= q < p ==> no_fit(#[trigger] pool_bits(u, q), n))
            && scan_faults(pool_bits(u, p), n)
}

/// A handle to `count` consecutive slots of one pool.
pub struct PoolHandle {
    /// Pool index (0 to 4)
    pub pool: u8,
    /// Slot index within the pool's page (pool zero starts at 64)
    pub index: u8,
    /// Number of 32-byte slots used
    pub count: u8,
}

impl PoolHandle {
    /// First bit of this handle in its pool's bitmap.
    pub open spec fn first_bit(&self) -> int {
        if self.pool == 0 {
            self.index - POOL0_SLOTS
        } else {
            self.index as int
        }
    }

    /// The handle names slots inside its pool.
    pub open spec fn wf(&self) -> bool {
        &&& self.pool <= 4
        &&& self.pool == 0 ==> POOL0_SLOTS <= self.index && self.index + self.count <= 128
        &&& self.pool != 0 ==> self.index + self.count <= 128
    }

    /// Number of slots.
    pub fn len(&self) -> (r: usize)
        ensures
            r == self.count,
    {
        self.count as usize
    }
}

/// Hardware-visible memory handed out in 32-byte slots.
pub struct MemoryPools {
    /// Physical address of the device context base array page (its second
    /// half is pool zero)
    pub dcbaa_phys: u64,
    /// Physical addresses of the general pool pages that exist
    pub pools: [Option<u64>; 4],
    pub used: Used,
}

/// Outcome of an allocation of `n` slots from `before`.
pub open spec fn alloc_result(before: Used, n: int, r: Option<PoolHandle>, after: Used) -> bool {
    match r {
        Some(h) => {
            &&& h.wf()
            &&& h.count == n
            &&& forall|q: int| 0 <= q < h.pool ==> no_fit(#[trigger] pool_bits(before, q), n)
            &&& first_fit(pool_bits(before, h.pool as int), n, h.first_bit())
            &&& bits_set(pool_bits(before, h.pool as int), pool_bits(after, h.pool as int), h.first_bit(), n)
            &&& forall|q: int| 0 <= q <= 4 && q != h.pool ==> #[trigger] pool_bits(after, q) == pool_bits(before, q)
        },
        None => {
            &&& forall|q: int| 0 <= q <= 4 ==> no_fit(#[trigger] pool_bits(before, q), n)
            &&& after == before
        },
    }
}

/// Outcome of releasing `h` from `before`: its slots are cleared when all of
/// them were in use, and nothing changes otherwise.
pub open spec fn release_result(before: Used, h: PoolHandle, after: Used) -> bool {
    let p = h.pool as int;
    &&& forall|q: int| 0 <= q <= 4 && q != p ==> #[trigger] pool_bits(after, q) == pool_bits(before, q)
    &&& if window_all_set(pool_bits(before, p), h.first_bit(), h.count as int) {
        bits_cleared(pool_bits(before, p), pool_bits(after, p), h.first_bit(), h.count as int)
    } else {
        pool_bits(after, p) == pool_bits(before, p)
    }
}

impl MemoryPools {
    /// Pools over the given device context array page, with nothing allocated.
    pub fn new(dcbaa_phys: u64) -> (r: MemoryPools)
        ensures
            r.dcbaa_phys == dcbaa_phys,
            r.pools@ == seq![None::<u64>, None, None, None],
            forall|q: int, k: int| 0 <= q <= 4 && 0 <= k < nbits(pool_bits(r.used, q)) ==> !#[trigger] bit(pool_bits(r.used, q), k),
    {
        let r = MemoryPools {
            dcbaa_phys,
            pools: [None, None, None, None],
            used: Used { pool0: [0u32; 2], pools: [[0u32; 4]; 4] },
        };
        assert forall|q: int, k: int| 0 <= q <= 4 && 0 <= k < nbits(pool_bits(r.used, q)) implies !#[trigger] bit(pool_bits(r.used, q), k) by {
            let c = (k % 32) as u32;
            crate::bits::lemma_u32_bit_test(0, c);
        }
        assert(r.pools@ =~= seq![None::<u64>, None, None, None]);
        r
    }

    /// The allocation scan would run off a bitmap.
    pub fn alloc_would_fault(&self, n_blocks: u8) -> (r: bool)
        ensures
            r == alloc_faults(self.used, n_blocks as int),
    {
        if scan_would_fault(&self.used.pool0, n_blocks) {
            assert(alloc_faults(self.used, n_blocks as int)) by {
                assert(pool_bits(self.used, 0) == self.used.pool0@);
            }
            return true;
        }
        if !no_fit_exec(&self.used.pool0, n_blocks) {
            proof {
                if alloc_faults(self.used, n_blocks as int) {
                    let p = choose|p: int|
                        0 <= p <= 4 && (forall|q: int| 0 <= q < p ==> no_fit(#[trigger] pool_bits(self.used, q), n_blocks as int))
                            && scan_faults(pool_bits(self.used, p), n_blocks as int);
                    if p > 0 {
                        assert(no_fit(pool_bits(self.used, 0), n_blocks as int));
                    }
                }
            }
            return false;
        }
        let mut pool: usize = 0;
        while pool < N_PAGES
            invariant
                pool <= 4,
                forall|q: int| 0 <= q <= pool ==> no_fit(#[trigger] pool_bits(self.used, q), n_blocks as int),
            decreases 4 - pool,
        {
            if scan_would_fault(&self.used.pools[pool], n_blocks) {
                assert(alloc_faults(self.used, n_blocks as int)) by {
                    assert(pool_bits(self.used, pool + 1) == self.used.pools[pool as int]@);
                    assert(forall|q: int| 0 <= q < pool + 1 ==> no_fit(#[trigger] pool_bits(self.used, q), n_blocks as int));
                }
                return true;
            }
            if !no_fit_exec(&self.used.pools[pool], n_blocks) {
                proof {
                    assert(pool_bits(self.used, pool + 1) == self.used.pools[pool as int]@);
                    if alloc_faults(self.used, n_blocks as int) {
                        let p = choose|p: int|
                            0 <= p <= 4 && (forall|q: int| 0 <= q < p ==> no_fit(#[trigger] pool_bits(self.used, q), n_blocks as int))
                                && scan_faults(pool_bits(self.used, p), n_blocks as int);
                        if p > pool + 1 {
                            assert(no_fit(pool_bits(self.used, pool + 1), n_blocks as int));
                        }
                    }
                }
                return false;
            }
            assert(pool_bits(self.used, pool + 1) == self.used.pools[pool as int]@);
            pool += 1;
        }
        proof {
            if alloc_faults(self.used, n_blocks as int) {
                let p = choose|p: int|
                    0 <= p <= 4 && (forall|q: int| 0 <= q < p ==> no_fit(#[trigger] pool_bits(self.used, q), n_blocks as int))
                        && scan_faults(pool_bits(self.used, p), n_blocks as int);
                assert(no_fit(pool_bits(self.used, p), n_blocks as int));
            }
        }
        false
    }

    /// Allocate `n_blocks` consecutive slots: from the first pool (zero
    /// first) that has room for them, at the lowest offset there.
    pub fn allocate(&mut self, n_blocks: u8) -> (r: Option<PoolHandle>)
        requires
            !alloc_faults(old(self).used, n_blocks as int),
        ensures
            alloc_result(old(self).used, n_blocks as int, r, final(self).used),
            final(self).dcbaa_phys == old(self).dcbaa_phys,
            final(self).pools == old(self).pools,
    {
        let ghost u0 = self.used;
        let ghost n = n_blocks as int;
        assert(!scan_faults(pool_bits(u0, 0), n)) by {
            if scan_faults(pool_bits(u0, 0), n) {
                assert(alloc_faults(u0, n));
            }
        }
        if let Some(rel_slot) = find_and_set(&mut self.used.pool0, n_blocks) {
            let h = PoolHandle { pool: 0, index: 64 + rel_slot as u8, count: n_blocks };
            proof {
                assert(pool_bits(self.used, 0) == self.used.pool0@);
                assert forall|q: int| 0 <= q <= 4 && q != 0 implies #[trigger] pool_bits(self.used, q) == pool_bits(u0, q) by {}
            }
            return Some(h);
        }
        assert(self.used == u0) by {
            assert(self.used.pool0 =~= u0.pool0);
        }
        let mut pool: usize = 0;
        while pool < N_PAGES
            invariant
                pool <= 4,
                self.used == u0,
                u0 == old(self).used,
                n == n_blocks,
                self.dcbaa_phys == old(self).dcbaa_phys,
                self.pools == old(self).pools,
                !alloc_faults(u0, n),
                forall|q: int| 0 <= q <= pool ==> no_fit(#[trigger] pool_bits(u0, q), n),
            decreases 4 - pool,
        {
            assert(!scan_faults(pool_bits(u0, pool + 1), n)) by {
                if scan_faults(pool_bits(u0, pool + 1), n) {
                    assert(forall|q: int| 0 <= q < pool + 1 ==> no_fit(#[trigger] pool_bits(u0, q), n));
                    assert(alloc_faults(u0, n));
                }
            }
            assert(pool_bits(u0, pool + 1) == u0.pools[pool as int]@);
            if let Some(rel_slot) = find_and_set(&mut self.used.pools[pool], n_blocks) {
                let h = PoolHandle { pool: 1 + pool as u8, index: rel_slot as u8, count: n_blocks };
                proof {
                    assert(h.pool == pool + 1);
                    assert(h.first_bit() == rel_slot);
                    assert(h.wf());
                    assert(pool_bits(self.used, pool + 1) == self.used.pools[pool as int]@);
                    assert(first_fit(pool_bits(u0, h.pool as int), n, h.first_bit()));
                    assert(bits_set(pool_bits(u0, h.pool as int), pool_bits(self.used, h.pool as int), h.first_bit(), n));
                    assert forall|q: int| 0 <= q <= 4 && q != h.pool implies #[trigger] pool_bits(self.used, q) == pool_bits(u0, q) by {
                        if q > 0 {
                            assert(self.used.pools[q - 1] == u0.pools[q - 1]);
                        }
                    }
                    assert forall|q: int| 0 <= q < h.pool implies no_fit(#[trigger] pool_bits(u0, q), n) by {}
                }
                return Some(h);
            }
            assert(self.used == u0) by {
                assert(self.used.pools[pool as int] =~= u0.pools[pool as int]);
                assert(self.used.pools =~= u0.pools);
            }
            pool += 1;
        }
        None
    }

    /// Release the slots of `handle` (they are cleared only if all of them
    /// were in use).
    pub fn release(&mut self, handle: PoolHandle)
        requires
            handle.wf(),
        ensures
            release_result(old(self).used, handle, final(self).used),
            final(self).dcbaa_phys == old(self).dcbaa_phys,
            final(self).pools == old(self).pools,
    {
        let ghost u0 = self.used;
        let ghost p = handle.pool as int;
        if handle.pool == 0 {
            proof {
                assert(clear_in_range(u0.pool0@, handle.first_bit(), handle.count as int));
            }
            clear_bits(&mut self.used.pool0, handle.index - 64, handle.count);
            proof {
                assert(pool_bits(self.used, 0) == self.used.pool0@);
                assert forall|q: int| 0 <= q <= 4 && q != p implies #[trigger] pool_bits(self.used, q) == pool_bits(u0, q) by {}
            }
        } else {
            let i = handle.pool as usize - 1;
            proof {
                assert(pool_bits(u0, p) == u0.pools[i as int]@);
                assert(clear_in_range(u0.pools[i as int]@, handle.first_bit(), handle.count as int));
            }
            clear_bits(&mut self.used.pools[i], handle.index, handle.count);
            proof {
                assert(pool_bits(self.used, p) == self.used.pools[i as int]@);
                assert forall|q: int| 0 <= q <= 4 && q != p implies #[trigger] pool_bits(self.used, q) == pool_bits(u0, q) by {}
            }
        }
    }

    /// Whether the page of the handle's pool exists.
    pub open spec fn handle_backed(&self, handle: PoolHandle) -> bool {
        handle.pool == 0 || (1 <= handle.pool <= 4 && self.pools[handle.pool - 1] is Some)
    }

    /// Physical address of the handle's first slot (32 bytes per slot).
    pub fn get_phys(&self, handle: &PoolHandle) -> (r: u64)
        requires
            self.handle_backed(*handle),
            handle.pool == 0 ==> self.dcbaa_phys + 32 * handle.index <= u64::MAX,
            handle.pool != 0 ==> self.pools[handle.pool - 1]->0 + 32 * handle.index <= u64::MAX,
        ensures
            handle.pool == 0 ==> r == self.dcbaa_phys + 32 * handle.index,
            handle.pool != 0 ==> r == self.pools[handle.pool - 1]->0 + 32 * handle.index,
    {
        if handle.pool == 0 {
            self.dcbaa_phys + handle.index as u64 * 32
        } else {
            match self.pools[handle.pool as usize - 1] {
                Some(base) => base + handle.index as u64 * 32,
                None => 0,
            }
        }
    }
}

/// Allocation states with the same bitmaps are the same.
proof fn lemma_used_ext(a: Used, b: Used)
    requires
        forall|q: int| 0 <= q <= 4 ==> #[trigger] pool_bits(a, q) == pool_bits(b, q),
    ensures
        a == b,
{
    assert(pool_bits(a, 0) == pool_bits(b, 0));
    assert(a.pool0 =~= b.pool0);
    assert forall|i: int| 0 <= i < 4 implies a.pools[i] == b.pools[i] by {
        assert(pool_bits(a, i + 1) == pool_bits(b, i + 1));
        assert(a.pools[i] =~= b.pools[i]);
    }
    assert(a.pools =~= b.pools);
}

/// Releasing the handle that an allocation returned gives back the
/// allocation state from before the allocation.
pub proof fn lemma_release_undoes_alloc(u0: Used, n: int, h: PoolHandle, u1: Used, u2: Used)
    requires
        alloc_result(u0, n, Some(h), u1),
        release_result(u1, h, u2),
    ensures
        u2 == u0,
{
    let p = h.pool as int;
    let b0 = pool_bits(u0, p);
    let b1 = pool_bits(u1, p);
    let b2 = pool_bits(u2, p);
    let f = h.first_bit();
    assert(window_all_set(b1, f, n)) by {
        assert forall|k: int| f <= k < f + n implies #[trigger] bit(b1, k) by {
            assert(0 <= k < nbits(b0));
        }
    }
    assert forall|k: int| 0 <= k < nbits(b0) implies #[trigger] bit(b2, k) == bit(b0, k) by {
        assert(bit(b1, k) == (bit(b0, k) || (f <= k < f + n)));
        if f <= k < f + n {
            if bit(b0, k) {
                assert(window_blocked(b0, f, n));
            }
        }
    }
    lemma_bitmap_ext(b2, b0);
    assert forall|q: int| 0 <= q <= 4 implies #[trigger] pool_bits(u2, q) == pool_bits(u0, q) by {
        if q != p {
            assert(pool_bits(u2, q) == pool_bits(u1, q));
            assert(pool_bits(u1, q) == pool_bits(u0, q));
        }
    }
    lemma_used_ext(u2, u0);
}

} // verus!
