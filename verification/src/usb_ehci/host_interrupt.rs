//! Placement of interrupt queue heads in the periodic schedule.
use vstd::prelude::*;
use crate::usb_ehci::desc_pools::qh_pool::QhHandle;

verus! {

/// An interrupt queue head placed in the periodic schedule.
pub struct IntHandle {
    pub qh: QhHandle,
}

/// Period in microframes (the periodic array has 1024 entries): the
/// requested period clamped to 1..=128, times 8.
pub open spec fn interrupt_period_spec(period: usize) -> int {
    (if period < 1 { 1 } else if period > 128 { 128 } else { period }) * 8
}

pub fn interrupt_period(period: usize) -> (r: usize)
    ensures
        r == interrupt_period_spec(period),
        8 <= r <= 1024,
{
    let p = if period < 1 { 1 } else if period > 128 { 128 } else { period };
    p * 8
}

/// The offset with the lowest load (the first such, on ties).
pub fn best_offset(loads: &[usize]) -> (r: usize)
    requires
        loads@.len() >= 1,
    ensures
        r < loads@.len(),
        forall|o: int| 0 <= o < loads@.len() ==> loads@[r as int] <= loads@[o],
        forall|o: int| 0 <= o < r ==> loads@[r as int] < loads@[o],
{
    let mut best: usize = 0;
    let mut i: usize = 1;
    while i < loads.len()
        invariant
            1 <= i <= loads@.len(),
            best < i,
            forall|o: int| 0 <= o < i ==> loads@[best as int] <= loads@[o],
            forall|o: int| 0 <= o < best ==> loads@[best as int] < loads@[o],
        decreases loads@.len() - i,
    {
        if loads[i] < loads[best] {
            best = i;
        }
        i += 1;
    }
    best
}

/// The periodic-array slots a queue head with this period and offset
/// occupies: `ofs`, `ofs + period`, ... below 1024 + `ofs`.
pub fn periodic_slots(period: usize, ofs: usize) -> (r: Vec<usize>)
    requires
        8 <= period <= 1024,
        ofs < period,
    ensures
        r@.len() == (1024 + period - 1) / (period as int),
        forall|k: int| 0 <= k < r@.len() ==> r@[k] == ofs + k * period,
{
    let mut v: Vec<usize> = Vec::new();
    let mut s: usize = 0;
    assert(0 * period == 0) by (nonlinear_arith);
    while s < 1024
        invariant
            8 <= period <= 1024,
            ofs < period,
            s == v@.len() * period,
            s <= 1024 + period,
            v@.len() * period < 1024 + period,
            forall|k: int| 0 <= k < v@.len() ==> v@[k] == ofs + k * period,
        decreases 1024 + period - s,
    {
        proof {
            vstd::arithmetic::mul::lemma_mul_is_distributive_add_other_way(period as int, v@.len() as int, 1);
        }
        v.push(ofs + s);
        s += period;
    }
    proof {
        let n = v@.len() as int;
        let p = period as int;
        assert(n * p >= 1024);
        assert((n - 1) * p < 1024) by {
            vstd::arithmetic::mul::lemma_mul_is_distributive_sub_other_way(p, n, 1);
        }
        vstd::arithmetic::div_mod::lemma_fundamental_div_mod(1024 + p - 1, p);
        let q = (1024 + p - 1) / p;
        let m = (1024 + p - 1) % p;
        assert(q == n) by (nonlinear_arith)
            requires
                n * p >= 1024,
                (n - 1) * p < 1024,
                1024 + p - 1 == p * q + m,
                0 <= m < p,
                p >= 8,
        ;
    }
    v
}

} // verus!
