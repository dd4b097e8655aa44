//! Little-endian bit reader over report data.
use vstd::prelude::*;
use crate::usb_hid::report_parser::slice_skip;

verus! {

/// Bit `k` of the byte sequence `d`, least significant bit of each byte first.
pub open spec fn data_bit(d: Seq<u8>, k: int) -> bool {
    (d[k / 8] >> ((k % 8) as u8)) & 1 == 1
}

/// Value of the bits `s` (first bit least significant), for at most 32 bits.
pub open spec fn bits_value(s: Seq<bool>) -> u32
    decreases s.len(),
{
    if s.len() == 0 {
        0
    } else {
        bits_value(s.drop_last()) | (if s.last() { 1u32 << ((s.len() - 1) as u32) } else { 0 })
    }
}

/// Two's-complement reading of the `n`-bit value `u` (`1 <= n <= 32`).
pub open spec fn sign_extend_bits(u: u32, n: nat) -> i32 {
    let sgn: u32 = 1u32 << ((n - 1) as u32);
    (if u & sgn != 0 { u | !((sgn - 1) as u32) } else { u }) as i32
}

/// Outcome of reading `bits` bits from the remaining bits `v`: the value (if
/// there were enough bits) and the bits left afterwards. A failed 16-bit read
/// at a byte boundary leaves the stream as it was; any other failed read
/// consumes the rest of the stream.
pub open spec fn read_bits(v: Seq<bool>, bits: nat) -> (Option<u32>, Seq<bool>) {
    if v.len() == 0 {
        (None, v)
    } else if v.len() % 8 == 0 && bits == 16 && v.len() < 16 {
        (None, v)
    } else if v.len() >= bits {
        (Some(bits_value(v.take(bits as int))), v.skip(bits as int))
    } else {
        (None, Seq::empty())
    }
}

/// Reader over the bits of a byte slice.
pub struct BitStream<'a>(pub &'a [u8], pub usize);

/// Masks of no bits and of all eight bits of a byte.
proof fn lemma_byte_masks(b0: u8, b1: u8)
    by (bit_vector)
    ensures
        (b0 & ((1u32 << 0u32) - 1) as u8) as u32 == 0,
        b0 & ((1u32 << 8u32) - 1) as u8 == b0,
        (b0 & ((1u32 << 8u32) - 1) as u8) as u32 == (b0 as u32) | (((b1 & ((1u32 << 0u32) - 1) as u8) as u32) << 8),
        (b0 as u32) | (((b1 & ((1u32 << 8u32) - 1) as u8) as u32) << 8) == (b0 as u32) | ((b1 as u32) << 8),
{
}

proof fn lemma_byte_bits_value(b: u8, n: nat, v: Seq<bool>)
    requires
        n <= 8,
        v.len() >= n,
        forall|k: int| 0 <= k < n ==> v[k] == ((b >> (k as u8)) & 1 == 1),
    ensures
        bits_value(v.take(n as int)) == (b & ((1u32 << (n as u32)) - 1) as u8) as u32,
    decreases n,
{
    if n == 0 {
        assert(v.take(0) =~= Seq::<bool>::empty());
        lemma_byte_masks(b, 0);
    } else {
        let m = (n - 1) as nat;
        lemma_byte_bits_value(b, m, v);
        assert(v.take(n as int).drop_last() =~= v.take(m as int));
        let mm = m as u32;
        let prev = (b & ((1u32 << mm) - 1) as u8) as u32;
        assert(v.take(n as int).last() == ((b >> (mm as u8)) & 1 == 1));
        assert((((b >> (mm as u8)) & 1 == 1) ==> (prev | (1u32 << mm)) == (b & ((1u32 << (mm + 1)) - 1) as u8) as u32)
            && (!((b >> (mm as u8)) & 1 == 1) ==> (prev | 0) == (b & ((1u32 << (mm + 1)) - 1) as u8) as u32))
            by (bit_vector)
            requires
                mm < 8,
                prev == (b & ((1u32 << mm) - 1) as u8) as u32,
        ;
    }
}

proof fn lemma_two_bytes_value(b0: u8, b1: u8, n: nat, v: Seq<bool>)
    requires
        8 <= n <= 16,
        v.len() >= n,
        forall|k: int| 0 <= k < 8 ==> v[k] == ((b0 >> (k as u8)) & 1 == 1),
        forall|k: int| 8 <= k < n ==> v[k] == ((b1 >> ((k - 8) as u8)) & 1 == 1),
    ensures
        bits_value(v.take(n as int)) == (b0 as u32) | (((b1 & ((1u32 << ((n - 8) as u32)) - 1) as u8)
            as u32) << 8),
    decreases n,
{
    if n == 8 {
        lemma_byte_bits_value(b0, 8, v);
        lemma_byte_masks(b0, b1);
    } else {
        let m = (n - 1) as nat;
        lemma_two_bytes_value(b0, b1, m, v);
        assert(v.take(n as int).drop_last() =~= v.take(m as int));
        let j = (m - 8) as u32;
        let prev = (b0 as u32) | (((b1 & ((1u32 << j) - 1) as u8) as u32) << 8);
        assert(v.take(n as int).last() == ((b1 >> (j as u8)) & 1 == 1));
        assert((((b1 >> (j as u8)) & 1 == 1) ==> (prev | (1u32 << (j + 8))) == (b0 as u32) | (((b1
            & ((1u32 << (j + 1)) - 1) as u8) as u32) << 8))
            && (!((b1 >> (j as u8)) & 1 == 1) ==> (prev | 0) == (b0 as u32) | (((b1 & ((1u32 << (j
            + 1)) - 1) as u8) as u32) << 8))) by (bit_vector)
            requires
                j < 8,
                prev == (b0 as u32) | (((b1 & ((1u32 << j) - 1) as u8) as u32) << 8),
        ;
        assert((j + 8) as u32 == (n - 1) as u32);
    }
}

impl<'a> BitStream<'a> {
    /// The stream is well formed: the bit offset is within the first byte.
    pub open spec fn wf(&self) -> bool {
        self.1 < 8 && (self.0@.len() == 0 ==> self.1 == 0)
    }

    /// The bits that remain to be read.
    pub open spec fn bits(&self) -> Seq<bool> {
        Seq::new(
            (self.0@.len() * 8 - self.1) as nat,
            |k: int| data_bit(self.0@, k + self.1),
        )
    }

    /// A reader positioned at the first bit of `d`.
    pub fn new(d: &'a [u8]) -> (r: BitStream<'a>)
        ensures
            r.wf(),
            r.0@ == d@,
            r.bits() == Seq::new((d@.len() * 8) as nat, |k: int| data_bit(d@, k)),
    {
        let r = BitStream(d, 0);
        assert(r.bits() =~= Seq::new((d@.len() * 8) as nat, |k: int| data_bit(d@, k)));
        r
    }

    /// Read one bit.
    pub fn get_bit(&mut self) -> (r: Option<bool>)
        requires
            old(self).wf(),
        ensures
            final(self).wf(),
            old(self).bits().len() == 0 ==> r is None && final(self).bits() == old(self).bits(),
            old(self).bits().len() > 0 ==> r == Some(old(self).bits()[0]) && final(self).bits()
                == old(self).bits().drop_first(),
    {
        if self.0.len() == 0 {
            return None;
        }
        let ghost old_bits = self.bits();
        let ghost d = self.0@;
        let sh = self.1 as u8;
        let rv = (self.0[0] >> sh) & 1;
        self.1 += 1;
        if self.1 == 8 {
            self.0 = slice_skip(self.0, 1);
            self.1 = 0;
            proof {
                assert forall|k: int| 0 <= k < self.bits().len() implies self.bits()[k]
                    == old_bits.drop_first()[k] by {
                    assert((k + 8) / 8 == k / 8 + 1);
                    assert((k + 8) % 8 == k % 8);
                    assert(self.0@[k / 8] == d[k / 8 + 1]);
                    assert(old_bits.drop_first()[k] == data_bit(d, k + 1 + 7));
                }
                assert(self.bits() =~= old_bits.drop_first());
            }
        } else {
            proof {
                assert(self.bits() =~= old_bits.drop_first());
            }
        }
        Some(rv == 1)
    }

    /// Read `bits` bits one at a time.
    pub fn get_u32_expensive(&mut self, bits: usize) -> (r: Option<u32>)
        requires
            old(self).wf(),
            bits <= 32,
        ensures
            final(self).wf(),
            old(self).bits().len() >= bits ==> r == Some(bits_value(old(self).bits().take(
                bits as int,
            ))) && final(self).bits() == old(self).bits().skip(bits as int),
            old(self).bits().len() < bits ==> r is None && final(self).bits().len() == 0,
    {
        let ghost v0 = self.bits();
        assert(v0 == old(self).bits());
        let mut rv: u32 = 0;
        let mut i: usize = 0;
        while i < bits
            invariant
                self.wf(),
                i <= bits <= 32,
                i <= v0.len(),
                v0 == old(self).bits(),
                self.bits() == v0.skip(i as int),
                rv == bits_value(v0.take(i as int)),
            decreases bits - i,
        {
            let ghost before = self.bits();
            let b = self.get_bit();
            match b {
                None => {
                    proof {
                        assert(before.len() == 0);
                        assert(before.len() == v0.len() - i);
                        assert(v0.len() < bits);
                        assert(old(self).bits().len() < bits);
                    }
                    return None;
                },
                Some(bit) => {
                    proof {
                        assert(v0.take(i + 1).drop_last() =~= v0.take(i as int));
                        assert(v0.take(i + 1).last() == bit);
                        assert(self.bits() =~= v0.skip(i + 1));
                    }
                    if bit {
                        rv = rv | (1u32 << (i as u32));
                    } else {
                        proof {
                            let x = rv;
                            crate::bits::lemma_shr_zero(0, 0, x, 0);
                        }
                    }
                    i += 1;
                },
            }
        }
        Some(rv)
    }

    /// Read a `bits`-bit little-endian value (whole bytes and sub-byte reads at
    /// a byte boundary take a direct path).
    pub fn get_u32(&mut self, bits: usize) -> (r: Option<u32>)
        requires
            old(self).wf(),
            bits <= 32,
        ensures
            final(self).wf(),
            (r, final(self).bits()) == read_bits(old(self).bits(), bits as nat),
    {
        let ghost v = self.bits();
        if self.0.len() == 0 {
            None
        } else if self.1 == 0 {
            proof {
                assert(v.len() % 8 == 0) by (nonlinear_arith)
                    requires v.len() == self.0@.len() * 8;
            }
            if bits == 8 {
                let rv = self.0[0];
                self.0 = slice_skip(self.0, 1);
                proof {
                    lemma_byte_bits_value(rv, 8, v);
                    lemma_byte_masks(rv, 0);
                    assert(self.bits() =~= v.skip(8)) by {
                        assert forall|k: int| 0 <= k < self.bits().len() implies self.bits()[k]
                            == v.skip(8)[k] by {
                            assert((k + 8) / 8 == k / 8 + 1);
                            assert((k + 8) % 8 == k % 8);
                        }
                    }
                }
                Some(rv as u32)
            } else if bits == 16 {
                if self.0.len() < 2 {
                    return None;
                }
                let b0 = self.0[0];
                let b1 = self.0[1];
                let rv = (b0 as u32) | ((b1 as u32) << 8);
                self.0 = slice_skip(self.0, 2);
                proof {
                    assert forall|k: int| 8 <= k < 16 implies v[k] == ((b1 >> ((k - 8) as u8)) & 1
                        == 1) by {
                        assert(k / 8 == 1);
                        assert(k % 8 == k - 8);
                    }
                    lemma_two_bytes_value(b0, b1, 16, v);
                    lemma_byte_masks(b0, b1);
                    assert(self.bits() =~= v.skip(16)) by {
                        assert forall|k: int| 0 <= k < self.bits().len() implies self.bits()[k]
                            == v.skip(16)[k] by {
                            assert((k + 16) / 8 == k / 8 + 2);
                            assert((k + 16) % 8 == k % 8);
                        }
                    }
                }
                Some(rv)
            } else if bits < 8 {
                let sh = bits as u8;
                proof {
                    assert(1 <= (1u8 << sh) && ((1u32 << (sh as u32)) - 1) as u8 == (1u8 << sh) - 1)
                        by (bit_vector)
                        requires sh < 8;
                }
                let rv = self.0[0] & ((1u8 << sh) - 1);
                self.1 += bits;
                proof {
                    lemma_byte_bits_value(self.0@[0], bits as nat, v);
                    assert(self.bits() =~= v.skip(bits as int));
                }
                Some(rv as u32)
            } else {
                self.get_u32_expensive(bits)
            }
        } else {
            proof {
                assert(v.len() % 8 != 0) by (nonlinear_arith)
                    requires v.len() == self.0@.len() * 8 - self.1, 0 < self.1 < 8, self.0@.len() > 0;
            }
            self.get_u32_expensive(bits)
        }
    }

    /// Read a `bits`-bit two's-complement value.
    pub fn get_i32(&mut self, bits: usize) -> (r: Option<i32>)
        requires
            old(self).wf(),
            1 <= bits <= 32,
        ensures
            final(self).wf(),
            final(self).bits() == read_bits(old(self).bits(), bits as nat).1,
            r == (match read_bits(old(self).bits(), bits as nat).0 {
                Some(u) => Some(sign_extend_bits(u, bits as nat)),
                None => None::<i32>,
            }),
    {
        let mut u = match self.get_u32(bits) {
            Some(u) => u,
            None => return None,
        };
        let sgn_bit: u32 = 1u32 << ((bits - 1) as u32);
        proof {
            assert(1 <= sgn_bit) by (bit_vector)
                requires sgn_bit == 1u32 << ((bits - 1) as u32), 1 <= bits <= 32;
        }
        if u & sgn_bit != 0 {
            u = u | !(sgn_bit - 1);
        }
        Some(u as i32)
    }
}

} // verus!
