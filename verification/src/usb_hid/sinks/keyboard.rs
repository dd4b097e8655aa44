//! Keyboard input sink: tracks pressed keys between reports.
use vstd::prelude::*;

verus! {

/// Byte `b` has bit `j` set.
pub open spec fn byte_bit(b: u8, j: int) -> bool {
    b & (1u8 << (j as u8)) != 0
}

proof fn lemma_byte_set_bit(b: u8, j: u8, k: u8)
    requires
        j < 8,
        k < 8,
    ensures
        (b | (1u8 << j)) & (1u8 << k) != 0 <==> (j == k || b & (1u8 << k) != 0),
        (b & !(1u8 << j)) & (1u8 << k) != 0 <==> (j != k && b & (1u8 << k) != 0),
{
    crate::bits::lemma_u8_bits(b, j, k);
}

/// A set of 256 flags.
#[derive(Copy, Clone)]
pub struct BitSet256(pub [u8; 32]);

impl BitSet256 {
    /// Flag `i` is set.
    pub open spec fn has(&self, i: int) -> bool {
        0 <= i < 256 && byte_bit(self.0@[i / 8], i % 8)
    }

    /// An empty set.
    pub fn new() -> (r: BitSet256)
        ensures
            forall|i: int| !r.has(i),
    {
        let r = BitSet256([0u8; 32]);
        assert forall|i: int| !r.has(i) by {
            if 0 <= i < 256 {
                let j = (i % 8) as u8;
                crate::bits::lemma_u8_bits(0, j, j);
            }
        }
        r
    }

    /// Flag `i` (false for indices past the end).
    pub fn get(&self, i: usize) -> (r: bool)
        ensures
            r == self.has(i as int),
    {
        if i >= 256 {
            return false;
        }
        let j = (i % 8) as u8;
        self.0[i / 8] & (1u8 << j) != 0
    }

    /// Set flag `i` (ignored past the end).
    pub fn set(&mut self, i: usize)
        ensures
            forall|k: int| final(self).has(k) == (old(self).has(k) || (k == i && i < 256)),
    {
        if i < 256 {
            let j = (i % 8) as u8;
            let b = self.0[i / 8];
            self.0[i / 8] = b | (1u8 << j);
            proof {
                assert forall|k: int| final(self).has(k) == (old(self).has(k) || k == i) by {
                    if 0 <= k < 256 {
                        lemma_byte_set_bit(old(self).0@[k / 8], j, (k % 8) as u8);
                        if k / 8 == i / 8 {
                            lemma_byte_set_bit(b, j, (k % 8) as u8);
                        }
                    }
                }
            }
        }
    }

    /// Clear flag `i` (ignored past the end).
    pub fn clr(&mut self, i: usize)
        ensures
            forall|k: int| final(self).has(k) == (old(self).has(k) && k != i),
    {
        if i < 256 {
            let j = (i % 8) as u8;
            let b = self.0[i / 8];
            self.0[i / 8] = b & !(1u8 << j);
            proof {
                assert forall|k: int| final(self).has(k) == (old(self).has(k) && k != i) by {
                    if 0 <= k < 256 && k / 8 == i / 8 {
                        lemma_byte_set_bit(b, j, (k % 8) as u8);
                    }
                }
            }
        }
    }
}

/// Key changes between `last` and `cur` over the codes below `n`, in
/// increasing code order: each changed code with its new state.
pub open spec fn key_changes(cur: BitSet256, last: BitSet256, n: nat) -> Seq<(u8, bool)>
    decreases n,
{
    if n == 0 {
        Seq::empty()
    } else {
        let i = (n - 1) as int;
        let prev = key_changes(cur, last, (n - 1) as nat);
        if cur.has(i) != last.has(i) {
            prev.push((i as u8, cur.has(i)))
        } else {
            prev
        }
    }
}

/// Keyboard sink: the keys reported in the current report and in the last one.
pub struct Keyboard {
    pub cur_state: BitSet256,
    pub last_state: BitSet256,
}

impl Keyboard {
    /// A keyboard with no keys held.
    pub fn new() -> (r: Keyboard)
        ensures
            forall|i: int| !r.cur_state.has(i) && !r.last_state.has(i),
    {
        Keyboard { cur_state: BitSet256::new(), last_state: BitSet256::new() }
    }

    /// Record key `k` as held in the current report.
    pub fn set_key(&mut self, k: u8)
        ensures
            final(self).last_state == old(self).last_state,
            forall|i: int| final(self).cur_state.has(i) == (old(self).cur_state.has(i) || i == k),
    {
        self.cur_state.set(k as usize);
    }

    /// Finish a report: returns the key events (code, pressed) for every key
    /// whose state changed since the last report, in increasing code order,
    /// then makes the current report the last one and starts an empty report.
    pub fn updated(&mut self) -> (events: Vec<(u8, bool)>)
        ensures
            events@ == key_changes(old(self).cur_state, old(self).last_state, 256),
            final(self).last_state == old(self).cur_state,
            forall|i: int| !final(self).cur_state.has(i),
    {
        let mut events: Vec<(u8, bool)> = Vec::new();
        let mut i: usize = 0;
        while i < 256
            invariant
                i <= 256,
                events@ == key_changes(self.cur_state, self.last_state, i as nat),
            decreases 256 - i,
        {
            let cur = self.cur_state.get(i);
            let prev = self.last_state.get(i);
            if cur != prev {
                events.push((i as u8, cur));
            }
            i += 1;
        }
        self.last_state = self.cur_state;
        self.cur_state = BitSet256::new();
        events
    }
}

} // verus!
