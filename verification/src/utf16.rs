//! UTF-16 strings: validation, decoding to characters, and WTF-8 encoding
//! for comparison with byte strings.
use vstd::prelude::*;
use vstd::utf8::{is_scalar, encode_scalar, encode_utf8};
use vstd::string::StrSliceExecFns;

verus! {

pub const HI_SURR_START: u16 = 0xD800;
pub const HI_SURR_END: u16 = 0xDBFF;
pub const LO_SURR_START: u16 = 0xDC00;
pub const LO_SURR_END: u16 = 0xDFFF;

pub open spec fn is_high(cu: u16) -> bool {
    HI_SURR_START <= cu <= HI_SURR_END
}

pub open spec fn is_low(cu: u16) -> bool {
    LO_SURR_START <= cu <= LO_SURR_END
}

/// The code units `s` are accepted, given whether a low surrogate is due:
/// every low surrogate follows a high one and every high surrogate is
/// followed by a low one.
pub open spec fn valid_from(s: Seq<u16>, expect_low: bool) -> bool
    decreases s.len(),
{
    if s.len() == 0 {
        !expect_low
    } else {
        let cu = s[0];
        if expect_low {
            is_low(cu) && valid_from(s.drop_first(), false)
        } else if is_high(cu) {
            valid_from(s.drop_first(), true)
        } else if is_low(cu) {
            false
        } else {
            valid_from(s.drop_first(), false)
        }
    }
}

/// The code points of `s`: surrogate pairs combined, any other unit as is.
pub open spec fn decode(s: Seq<u16>) -> Seq<u32>
    decreases s.len(),
{
    if s.len() == 0 {
        seq![]
    } else if is_high(s[0]) && s.len() > 1 && is_low(s[1]) {
        seq![(0x10000 + (((s[0] - HI_SURR_START) as u32) << 10u32) + (s[1] - LO_SURR_START)) as u32]
            + decode(s.skip(2))
    } else {
        seq![s[0] as u32] + decode(s.skip(1))
    }
}

/// Every code point of the string is a Unicode scalar value.
pub open spec fn all_scalars(cps: Seq<u32>) -> bool {
    forall|i: int| 0 <= i < cps.len() ==> #[trigger] is_scalar(cps[i])
}

/// The UTF-8 bytes of a sequence of code points.
pub open spec fn encode_points(cps: Seq<u32>) -> Seq<u8>
    decreases cps.len(),
{
    if cps.len() == 0 {
        seq![]
    } else {
        encode_scalar(cps[0]) + encode_points(cps.drop_first())
    }
}

/// `char::from_u32` of std: the character of a Unicode scalar value, and
/// `None` for any other value (a surrogate or a value past 0x10FFFF), as
/// its documentation states.
#[verifier::external_body]
fn char_from_u32(v: u32) -> (r: Option<char>)
    ensures
        r == (if is_scalar(v) { Some(v as char) } else { None::<char> }),
{
    char::from_u32(v)
}

/// A UTF-16 string.
pub struct Str16<'a>(&'a [u16]);

impl<'a> Str16<'a> {
    /// The code units.
    pub closed spec fn units(&self) -> Seq<u16> {
        self.0@
    }

    /// The string, if `v` is valid UTF-16.
    pub fn new(v: &'a [u16]) -> (r: Option<Str16<'a>>)
        ensures
            valid_from(v@, false) ==> (r matches Some(s) && s.units() == v@),
            !valid_from(v@, false) ==> r is None,
    {
        let mut expect_low = false;
        let mut i: usize = 0;
        assert(v@.skip(0) =~= v@);
        while i < v.len()
            invariant
                i <= v@.len(),
                valid_from(v@, false) == valid_from(v@.skip(i as int), expect_low),
            decreases v@.len() - i,
        {
            let cu = v[i];
            proof {
                assert(v@.skip(i as int).drop_first() =~= v@.skip(i + 1));
            }
            if expect_low {
                if LO_SURR_START <= cu && cu <= LO_SURR_END {
                    expect_low = false;
                } else {
                    return None;
                }
            } else {
                if HI_SURR_START <= cu && cu <= HI_SURR_END {
                    expect_low = true;
                } else if LO_SURR_START <= cu && cu <= LO_SURR_END {
                    return None;
                }
            }
            i += 1;
        }
        if expect_low {
            return None;
        }
        Some(Str16(v))
    }

    /// The string, without checking its validity.
    pub fn new_unchecked(v: &'a [u16]) -> (r: Str16<'a>)
        ensures
            r.units() == v@,
    {
        Str16(v)
    }

    /// The code points of the string.
    pub fn code_points(&self) -> (r: Vec<u32>)
        ensures
            r@ == decode(self.units()),
    {
        let s = self.0;
        let mut out: Vec<u32> = Vec::new();
        let mut i: usize = 0;
        assert(s@.skip(0) =~= s@);
        assert(out@ + decode(s@) =~= decode(s@));
        while i < s.len()
            invariant
                i <= s@.len(),
                s@ == self.units(),
                decode(s@) == out@ + decode(s@.skip(i as int)),
            decreases s@.len() - i,
        {
            let v = s[i];
            let ghost rest = s@.skip(i as int);
            if HI_SURR_START <= v && v <= HI_SURR_END && i + 1 < s.len() && LO_SURR_START <= s[i + 1] && s[i + 1] <= LO_SURR_END {
                let high = (v - HI_SURR_START) as u32;
                let low = (s[i + 1] - LO_SURR_START) as u32;
                assert(high < 0x400 && (high << 10u32) <= 0xFFC00) by (bit_vector)
                    requires high < 0x400;
                let cp: u32 = 0x10000 + (high << 10) + low;
                proof {
                    assert(rest.skip(2) =~= s@.skip(i + 2));
                    assert(out@.push(cp) + decode(s@.skip(i + 2)) =~= out@ + decode(rest));
                }
                out.push(cp);
                i += 2;
            } else {
                proof {
                    assert(rest.skip(1) =~= s@.skip(i + 1));
                    assert(out@.push(v as u32) + decode(s@.skip(i + 1)) =~= out@ + decode(rest));
                }
                out.push(v as u32);
                i += 1;
            }
        }
        proof {
            assert(s@.skip(i as int) =~= Seq::<u16>::empty());
            assert(out@ + decode(s@.skip(i as int)) =~= out@);
        }
        out
    }

    /// The characters of the string (every code point must be a Unicode
    /// scalar value: no unpaired surrogate).
    pub fn chars(&self) -> (r: Vec<char>)
        requires
            all_scalars(decode(self.units())),
        ensures
            r@.len() == decode(self.units()).len(),
            forall|i: int| 0 <= i < r@.len() ==> r@[i] as u32 == decode(self.units())[i],
    {
        let cps = self.code_points();
        let mut out: Vec<char> = Vec::new();
        let mut i: usize = 0;
        while i < cps.len()
            invariant
                i <= cps@.len(),
                cps@ == decode(self.units()),
                all_scalars(cps@),
                out@.len() == i,
                forall|k: int| 0 <= k < i ==> out@[k] as u32 == cps@[k],
            decreases cps@.len() - i,
        {
            let v = cps[i];
            assert(is_scalar(cps@[i as int]));
            match char_from_u32(v) {
                Some(c) => out.push(c),
                None => {
                    return out;
                },
            }
            i += 1;
        }
        out
    }

    /// WTF-8 (here UTF-8) bytes of the string.
    pub fn wtf8(&self) -> (r: Vec<u8>)
        requires
            all_scalars(decode(self.units())),
        ensures
            r@ == encode_points(decode(self.units())),
    {
        let cps = self.code_points();
        let mut out: Vec<u8> = Vec::new();
        let mut i: usize = 0;
        assert(cps@.skip(0) =~= cps@);
        assert(out@ + encode_points(cps@) =~= encode_points(cps@));
        while i < cps.len()
            invariant
                i <= cps@.len(),
                cps@ == decode(self.units()),
                all_scalars(cps@),
                encode_points(cps@) == out@ + encode_points(cps@.skip(i as int)),
            decreases cps@.len() - i,
        {
            let v = cps[i];
            assert(is_scalar(cps@[i as int]));
            let bytes = encode_scalar_exec(v);
            proof {
                assert(cps@.skip(i as int).drop_first() =~= cps@.skip(i + 1));
            }
            let ghost before = out@;
            let mut j: usize = 0;
            while j < bytes.len()
                invariant
                    j <= bytes@.len(),
                    out@ == before + bytes@.take(j as int),
                decreases bytes@.len() - j,
            {
                out.push(bytes[j]);
                proof {
                    assert(bytes@.take(j + 1) =~= bytes@.take(j as int).push(bytes@[j as int]));
                }
                j += 1;
            }
            proof {
                assert(bytes@.take(j as int) =~= bytes@);
                assert(out@ + encode_points(cps@.skip(i + 1)) =~= before + encode_points(cps@.skip(i as int)));
            }
            i += 1;
        }
        proof {
            assert(cps@.skip(i as int) =~= Seq::<u32>::empty());
            assert(out@ + encode_points(cps@.skip(i as int)) =~= out@);
        }
        out
    }

    /// The string equals a byte string (compared through its WTF-8 bytes).
    pub fn eq_bytes(&self, v: &[u8]) -> (r: bool)
        requires
            all_scalars(decode(self.units())),
        ensures
            r == (encode_points(decode(self.units())) == v@),
    {
        let w = self.wtf8();
        if w.len() != v.len() {
            assert(w@ != v@);
            return false;
        }
        let mut i: usize = 0;
        while i < w.len()
            invariant
                w@.len() == v@.len(),
                w@ == encode_points(decode(self.units())),
                i <= w@.len(),
                forall|k: int| 0 <= k < i ==> w@[k] == v@[k],
            decreases w@.len() - i,
        {
            if w[i] != v[i] {
                assert(w@[i as int] != v@[i as int]);
                assert(w@ != v@);
                return false;
            }
            i += 1;
        }
        assert(w@ =~= v@);
        true
    }

    /// The string equals a `str` (compared character by character).
    pub fn eq_str(&self, v: &str) -> (r: bool)
        requires
            all_scalars(decode(self.units())),
        ensures
            r == (decode(self.units()).len() == v@.len() && forall|i: int| 0 <= i < v@.len() ==> v@[i] as u32 == decode(self.units())[i]),
    {
        let cs = self.chars();
        let n = v.unicode_len();
        if cs.len() != n {
            return false;
        }
        let mut i: usize = 0;
        while i < n
            invariant
                cs@.len() == n,
                n == v@.len(),
                i <= n,
                forall|k: int| 0 <= k < cs@.len() ==> cs@[k] as u32 == decode(self.units())[k],
                cs@.len() == decode(self.units()).len(),
                forall|k: int| 0 <= k < i ==> v@[k] as u32 == decode(self.units())[k],
            decreases n - i,
        {
            let c = v.get_char(i);
            if (c as u32) != (cs[i] as u32) {
                assert(v@[i as int] as u32 != decode(self.units())[i as int]);
                return false;
            }
            i += 1;
        }
        true
    }
}

/// The UTF-8 bytes of a Unicode scalar value.
pub fn encode_scalar_exec(v: u32) -> (r: Vec<u8>)
    requires
        is_scalar(v),
    ensures
        r@ == encode_scalar(v),
{
    let mut out: Vec<u8> = Vec::new();
    if v <= 0x7F {
        out.push((v & 0x7F) as u8);
    } else if v <= 0x7FF {
        out.push(0xC0 | ((v >> 6) & 0x1F) as u8);
        out.push(0x80 | (v & 0x3F) as u8);
    } else if v <= 0xFFFF {
        out.push(0xE0 | ((v >> 12) & 0x0F) as u8);
        out.push(0x80 | ((v >> 6) & 0x3F) as u8);
        out.push(0x80 | (v & 0x3F) as u8);
    } else {
        out.push(0xF0 | ((v >> 18) & 0x7) as u8);
        out.push(0x80 | ((v >> 12) & 0x3F) as u8);
        out.push(0x80 | ((v >> 6) & 0x3F) as u8);
        out.push(0x80 | (v & 0x3F) as u8);
    }
    assert(out@ =~= encode_scalar(v));
    out
}

/// A string accepted by [`Str16::new`] decodes to Unicode scalar values
/// only.
pub proof fn lemma_valid_decodes_to_scalars(s: Seq<u16>)
    requires
        valid_from(s, false),
    ensures
        all_scalars(decode(s)),
    decreases s.len(),
{
    if s.len() == 0 {
        return;
    }
    let cu = s[0];
    if is_high(cu) {
        assert(valid_from(s.drop_first(), true));
        assert(s.len() > 1);
        assert(s.drop_first()[0] == s[1]);
        assert(is_low(s[1]));
        assert(valid_from(s.drop_first().drop_first(), false));
        assert(s.drop_first().drop_first() =~= s.skip(2));
        lemma_valid_decodes_to_scalars(s.skip(2));
        let high = (cu - HI_SURR_START) as u32;
        let low = (s[1] - LO_SURR_START) as u32;
        assert(high < 0x400 && low < 0x400);
        assert(0x10000 <= 0x10000 + (high << 10u32) + low <= 0x10FFFF) by (bit_vector)
            requires
                high < 0x400,
                low < 0x400,
        ;
        let d = decode(s);
        assert(d =~= seq![(0x10000 + (high << 10u32) + low) as u32] + decode(s.skip(2)));
        assert forall|i: int| 0 <= i < d.len() implies #[trigger] is_scalar(d[i]) by {
            if i > 0 {
                assert(d[i] == decode(s.skip(2))[i - 1]);
            }
        }
    } else {
        assert(!is_low(cu));
        assert(valid_from(s.drop_first(), false));
        assert(s.drop_first() =~= s.skip(1));
        lemma_valid_decodes_to_scalars(s.skip(1));
        let d = decode(s);
        assert(!is_high(cu));
        assert(d =~= seq![cu as u32] + decode(s.skip(1)));
        assert forall|i: int| 0 <= i < d.len() implies #[trigger] is_scalar(d[i]) by {
            if i > 0 {
                assert(d[i] == decode(s.skip(1))[i - 1]);
            }
        }
    }
}

} // verus!
