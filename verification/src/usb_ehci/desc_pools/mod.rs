//! Descriptor pools: slots in a hardware-visible page, tracked by bitmaps.
use vstd::prelude::*;
use vstd::std_specs::bits::u8_trailing_ones;

pub mod qh_pool;
pub mod td_pool;

verus! {

/// Bit `idx` of a byte bitmap.
pub open spec fn byte_bit(a: Seq<u8>, idx: int) -> bool {
    a[idx / 8] & (1u8 << ((idx % 8) as u8)) != 0
}

/// Position of the lowest clear bit of a byte.
pub open spec fn lowest_clear(b: u8) -> int {
    u8_trailing_ones(b) as int
}

/// Byte `i` is not full, and its lowest clear bit is at or after `start`.
pub open spec fn hit_from(a: Seq<u8>, start: int, i: int) -> bool {
    a[i] != 0xFF && i * 8 + lowest_clear(a[i]) >= start
}

/// The slot taken by [`set_first_zero_bit`]: from byte `i`, the lowest clear bit.
pub open spec fn first_zero_choice(a: Seq<u8>, start: int, i: int) -> bool {
    &&& 0 <= i < a.len()
    &&& a[i] != 0xFF
    &&& if start > 0 && exists|k: int| 0 <= k < a.len() && #[trigger] hit_from(a, start, k) {
        hit_from(a, start, i) && forall|k: int| 0 <= k < i ==> !#[trigger] hit_from(a, start, k)
    } else {
        forall|k: int| 0 <= k < i ==> a[k] == 0xFF
    }
}

pub(crate) proof fn lemma_lowest_clear(b: u8)
    requires
        b != 0xFF,
    ensures
        0 <= lowest_clear(b) < 8,
        b & (1u8 << (lowest_clear(b) as u8)) == 0,
        forall|j: u8| j < lowest_clear(b) ==> b & (1u8 << j) != 0,
{
    let nb = !b;
    vstd::std_specs::bits::axiom_u8_trailing_zeros(nb);
    crate::bits::lemma_u8_bits(b, 0, 0);
    let t = vstd::std_specs::bits::u8_trailing_zeros(nb);
    let tt = t as u8;
    assert((nb >> tt) & 1u8 == 1u8);
    crate::bits::lemma_u8_bits(b, tt, tt);
    assert forall|j: u8| j < lowest_clear(b) implies b & (1u8 << j) != 0 by {
        assert((nb >> j) & 1u8 == 0u8);
        crate::bits::lemma_u8_bits(b, j, j);
    }
}

/// Take a free slot: the lowest clear bit of the first byte whose lowest
/// clear bit is at or after `start` (when `start` is not zero), else the
/// lowest clear bit of the first byte that is not full.
pub fn set_first_zero_bit(arr: &mut [u8], start: usize) -> (r: Option<usize>)
    requires
        old(arr)@.len() * 8 <= usize::MAX,
    ensures
        final(arr)@.len() == old(arr)@.len(),
        match r {
            Some(k) => first_zero_choice(old(arr)@, start as int, (k / 8) as int) && k % 8
                == lowest_clear(old(arr)@[(k / 8) as int]) && final(arr)@ == old(arr)@.update(
                (k / 8) as int,
                old(arr)@[(k / 8) as int] | (1u8 << ((k % 8) as u8)),
            ),
            None => (forall|k: int| 0 <= k < old(arr)@.len() ==> old(arr)@[k] == 0xFF)
                && final(arr)@ == old(arr)@,
        },
{
    let ghost a = arr@;
    let n = arr.len();
    if start > 0 {
        let mut i: usize = 0;
        while i < n
            invariant
                arr@ == a,
                a == old(arr)@,
                n == a.len(),
                n * 8 <= usize::MAX,
                i <= n,
                start > 0,
                forall|k: int| 0 <= k < i ==> !#[trigger] hit_from(a, start as int, k),
            decreases n - i,
        {
            let s = arr[i];
            if s != 0xFF {
                let j = s.trailing_ones() as usize;
                proof {
                    lemma_lowest_clear(s);
                }
                let rv = i * 8 + j;
                if rv >= start {
                    arr[i] = s | (1u8 << (j as u8));
                    proof {
                        assert(hit_from(a, start as int, i as int));
                        assert(rv / 8 == i && rv % 8 == j);
                    }
                    return Some(rv);
                }
            }
            i += 1;
        }
    }
    let ghost none_hit = forall|k: int| 0 <= k < a.len() ==> !#[trigger] hit_from(a, start as int, k);
    assert(start > 0 ==> none_hit);
    let mut i: usize = 0;
    while i < n
        invariant
            arr@ == a,
            a == old(arr)@,
            n == a.len(),
            n * 8 <= usize::MAX,
            i <= n,
            start > 0 ==> forall|k: int| 0 <= k < a.len() ==> !#[trigger] hit_from(a, start as int, k),
            forall|k: int| 0 <= k < i ==> a[k] == 0xFF,
        decreases n - i,
    {
        let s = arr[i];
        if s != 0xFF {
            let j = s.trailing_ones() as usize;
            proof {
                lemma_lowest_clear(s);
            }
            let rv = i * 8 + j;
            arr[i] = s | (1u8 << (j as u8));
            proof {
                assert(rv / 8 == i && rv % 8 == j);
            }
            return Some(rv);
        }
        i += 1;
    }
    None
}

/// Clear bit `idx`, returning whether it was set.
pub fn get_and_clear_bit(arr: &mut [u8], idx: usize) -> (r: bool)
    requires
        idx / 8 < old(arr)@.len(),
    ensures
        r == byte_bit(old(arr)@, idx as int),
        final(arr)@ == old(arr)@.update(
            (idx / 8) as int,
            old(arr)@[(idx / 8) as int] & !(1u8 << ((idx % 8) as u8)),
        ),
{
    let bit = 1u8 << ((idx % 8) as u8);
    let s = arr[idx / 8];
    let rv = s & bit != 0;
    arr[idx / 8] = s & !bit;
    rv
}

} // verus!
