//! Paths: byte strings of components separated by `/`.
use vstd::prelude::*;

verus! {

/// Index of the first `/` in `s`, if any.
pub open spec fn first_slash(s: Seq<u8>) -> Option<int> {
    if exists|i: int| 0 <= i < s.len() && s[i] == 0x2F {
        Some(choose|i: int| 0 <= i < s.len() && s[i] == 0x2F && forall|j: int| 0 <= j < i ==> s[j] != 0x2F)
    } else {
        None
    }
}

/// `i` is the first `/` of `s`.
pub open spec fn is_first_slash(s: Seq<u8>, i: int) -> bool {
    0 <= i < s.len() && s[i] == 0x2F && forall|j: int| 0 <= j < i ==> s[j] != 0x2F
}

/// `i` is the last `/` of `s`.
pub open spec fn is_last_slash(s: Seq<u8>, i: int) -> bool {
    0 <= i < s.len() && s[i] == 0x2F && forall|j: int| i < j < s.len() ==> s[j] != 0x2F
}

pub open spec fn has_slash(s: Seq<u8>) -> bool {
    exists|i: int| 0 <= i < s.len() && #[trigger] s[i] == 0x2F
}

/// The first component and the rest of a non-empty path.
pub open spec fn split_first_spec(s: Seq<u8>) -> Option<(Seq<u8>, Seq<u8>)> {
    if s.len() == 0 {
        None
    } else if has_slash(s) {
        let i = choose|i: int| is_first_slash(s, i);
        Some((s.take(i), s.skip(i + 1)))
    } else {
        Some((s, seq![]))
    }
}

/// The parent and the last component of a non-empty path (the parent of
/// a name at the root is `/`, of a bare name the empty path).
pub open spec fn split_last_spec(s: Seq<u8>) -> Option<(Seq<u8>, Seq<u8>)> {
    if s.len() == 0 {
        None
    } else if has_slash(s) {
        let i = choose|i: int| is_last_slash(s, i);
        Some((if i == 0 { seq![0x2Fu8] } else { s.take(i) }, s.skip(i + 1)))
    } else {
        Some((seq![], s))
    }
}

/// The components of a path, as split off one by one from the front.
pub open spec fn components(s: Seq<u8>) -> Seq<Seq<u8>>
    decreases s.len(),
{
    match split_first_spec(s) {
        None => seq![],
        Some((c, rest)) => {
            if rest.len() < s.len() {
                seq![c] + components(rest)
            } else {
                seq![]
            }
        },
    }
}

/// What is left of `tail` once the components of `other` have been matched
/// off its front, or `None` where they differ.
pub open spec fn strip_prefix(tail: Seq<u8>, other: Seq<u8>) -> Option<Seq<u8>>
    decreases tail.len(),
{
    match split_first_spec(tail) {
        None => if split_first_spec(other) is Some { None } else { Some(seq![]) },
        Some((comp, t)) => match split_first_spec(other) {
            Some((ocomp, orest)) => if comp != ocomp {
                None
            } else if t.len() < tail.len() {
                strip_prefix(t, orest)
            } else {
                None
            },
            None => Some(tail),
        },
    }
}

pub open spec fn is_absolute_spec(s: Seq<u8>) -> bool {
    s.len() > 0 && s[0] == 0x2F
}

proof fn lemma_first_slash_unique(s: Seq<u8>, i: int, k: int)
    requires
        is_first_slash(s, i),
        is_first_slash(s, k),
    ensures
        i == k,
{
}

proof fn lemma_split_first_shorter(s: Seq<u8>)
    requires
        s.len() > 0,
    ensures
        split_first_spec(s) matches Some((c, rest)) && (has_slash(s) ==> rest.len() < s.len()) && (!has_slash(s) ==> rest.len() == 0),
{
    if has_slash(s) {
        let w = choose|i: int| 0 <= i < s.len() && #[trigger] s[i] == 0x2F;
        lemma_exists_first_slash(s, w);
    }
}

proof fn lemma_exists_first_slash(s: Seq<u8>, w: int)
    requires
        0 <= w < s.len(),
        s[w] == 0x2F,
    ensures
        exists|i: int| is_first_slash(s, i),
    decreases w,
{
    if exists|j: int| 0 <= j < w && s[j] == 0x2F {
        let j = choose|j: int| 0 <= j < w && s[j] == 0x2F;
        lemma_exists_first_slash(s, j);
    } else {
        assert(is_first_slash(s, w));
    }
}

proof fn lemma_exists_last_slash(s: Seq<u8>, w: int)
    requires
        0 <= w < s.len(),
        s[w] == 0x2F,
    ensures
        exists|i: int| is_last_slash(s, i),
    decreases s.len() - w,
{
    if exists|j: int| w < j < s.len() && s[j] == 0x2F {
        let j = choose|j: int| w < j < s.len() && s[j] == 0x2F;
        lemma_exists_last_slash(s, j);
    } else {
        assert(is_last_slash(s, w));
    }
}

/// A path (borrowed bytes).
#[derive(Copy, Clone)]
pub struct Path<'a>(pub &'a [u8]);

/// An owned path.
pub struct PathBuf(pub Vec<u8>);

impl<'a> Path<'a> {
    pub open spec fn bytes(&self) -> Seq<u8> {
        self.0@
    }

    /// A path over a byte string.
    pub fn new(v: &'a [u8]) -> (r: Path<'a>)
        ensures
            r.bytes() == v@,
    {
        Path(v)
    }

    /// The path starts with `/`.
    pub fn is_absolute(&self) -> (r: bool)
        ensures
            r == is_absolute_spec(self.bytes()),
    {
        self.0.len() > 0 && self.0[0] == 0x2F
    }

    /// The first component and the rest.
    pub fn split_off_first(&self) -> (r: Option<(&'a [u8], Path<'a>)>)
        ensures
            match split_first_spec(self.bytes()) {
                None => r is None,
                Some((c, rest)) => r matches Some((rc, rp)) && rc@ == c && rp.bytes() == rest,
            },
    {
        let s = self.0;
        if s.len() == 0 {
            return None;
        }
        let mut i: usize = 0;
        while i < s.len()
            invariant
                i <= s@.len(),
                s@ == self.bytes(),
                forall|j: int| 0 <= j < i ==> s@[j] != 0x2F,
            decreases s@.len() - i,
        {
            if s[i] == 0x2F {
                let (first, rest0) = s.split_at(i);
                let rest = slice_from(rest0, 1);
                proof {
                    assert(is_first_slash(s@, i as int));
                    assert(has_slash(s@));
                    let k = choose|k: int| is_first_slash(s@, k);
                    lemma_first_slash_unique(s@, i as int, k);
                    assert(first@ =~= s@.take(i as int));
                    assert(rest@ =~= s@.skip(i + 1));
                }
                return Some((first, Path(rest)));
            }
            i += 1;
        }
        proof {
            assert(!has_slash(s@));
        }
        Some((s, Path(slice_from(s, s.len()))))
    }

    /// The parent and the last component.
    pub fn split_off_last(&self) -> (r: Option<(PathBuf, &'a [u8])>)
        ensures
            match split_last_spec(self.bytes()) {
                None => r is None,
                Some((p, f)) => r matches Some((rp, rf)) && rp.0@ == p && rf@ == f,
            },
    {
        let s = self.0;
        if s.len() == 0 {
            return None;
        }
        let mut i: usize = s.len();
        while i > 0
            invariant
                i <= s@.len(),
                s@ == self.bytes(),
                s@.len() > 0,
                forall|j: int| i <= j < s@.len() ==> s@[j] != 0x2F,
            decreases i,
        {
            if s[i - 1] == 0x2F {
                let k = i - 1;
                let filename = slice_from(s, k + 1);
                let parent = if k == 0 {
                    let mut v: Vec<u8> = Vec::new();
                    v.push(0x2F);
                    v
                } else {
                    slice_to_vec(s, k)
                };
                proof {
                    assert(is_last_slash(s@, k as int));
                    assert(has_slash(s@));
                    let m = choose|m: int| is_last_slash(s@, m);
                    assert(m == k);
                    assert(filename@ =~= s@.skip(k + 1));
                    if k == 0 {
                        assert(parent@ =~= seq![0x2Fu8]);
                    } else {
                        assert(parent@ =~= s@.take(k as int));
                    }
                }
                return Some((PathBuf(parent), filename));
            }
            i -= 1;
        }
        proof {
            assert(!has_slash(s@));
        }
        Some((PathBuf(Vec::new()), s))
    }

    /// The last component.
    pub fn file_name(&self) -> (r: Option<&'a [u8]>)
        ensures
            match split_last_spec(self.bytes()) {
                None => r is None,
                Some((_p, f)) => r matches Some(rf) && rf@ == f,
            },
    {
        match self.split_off_last() {
            Some((_p, f)) => Some(f),
            None => None,
        }
    }

    /// Everything before the last component.
    pub fn parent(&self) -> (r: Option<PathBuf>)
        ensures
            match split_last_spec(self.bytes()) {
                None => r is None,
                Some((p, _f)) => r matches Some(rp) && rp.0@ == p,
            },
    {
        match self.split_off_last() {
            Some((p, _f)) => Some(p),
            None => None,
        }
    }

    /// The components of the path.
    pub fn iter(&self) -> (r: Vec<&'a [u8]>)
        ensures
            r@.len() == components(self.bytes()).len(),
            forall|i: int| 0 <= i < r@.len() ==> r@[i]@ == components(self.bytes())[i],
    {
        let mut out: Vec<&'a [u8]> = Vec::new();
        let mut cur = *self;
        loop
            invariant
                components(self.bytes()) == out@.map_values(|c: &[u8]| c@) + components(cur.bytes()),
            decreases cur.bytes().len(),
        {
            let ghost before = cur.bytes();
            let before_len = cur.0.len();
            match cur.split_off_first() {
                None => {
                    proof {
                        assert(components(before) =~= seq![]);
                        assert(out@.map_values(|c: &[u8]| c@) + components(before) =~= out@.map_values(|c: &[u8]| c@));
                        assert forall|i: int| 0 <= i < out@.len() implies out@[i]@ == components(self.bytes())[i] by {
                            assert(out@.map_values(|c: &[u8]| c@)[i] == out@[i]@);
                        }
                    }
                    return out;
                },
                Some((c, rest)) => {
                    proof {
                        lemma_split_first_shorter(before);
                    }
                    if rest.0.len() >= before_len {
                        proof {
                            assert(components(before) =~= seq![]);
                            assert(out@.map_values(|c: &[u8]| c@) + components(before) =~= out@.map_values(|c: &[u8]| c@));
                            assert forall|i: int| 0 <= i < out@.len() implies out@[i]@ == components(self.bytes())[i] by {
                                assert(out@.map_values(|c: &[u8]| c@)[i] == out@[i]@);
                            }
                        }
                        return out;
                    }
                    let ghost out0 = out@;
                    out.push(c);
                    proof {
                        assert(components(before) == seq![c@] + components(rest.bytes()));
                        assert(out@.map_values(|c: &[u8]| c@) =~= out0.map_values(|c: &[u8]| c@).push(c@));
                        assert(out@.map_values(|c: &[u8]| c@) + components(rest.bytes()) =~= out0.map_values(|c: &[u8]| c@) + components(before));
                    }
                    cur = rest;
                },
            }
        }
    }

    /// No component is `.` or `..`.
    pub fn is_normalised(&self) -> (r: bool)
        ensures
            r == forall|i: int| 0 <= i < components(self.bytes()).len() ==> #[trigger] components(self.bytes())[i] != seq![0x2Eu8]
                && components(self.bytes())[i] != seq![0x2Eu8, 0x2E],
    {
        let comps = self.iter();
        let mut i: usize = 0;
        while i < comps.len()
            invariant
                i <= comps@.len(),
                comps@.len() == components(self.bytes()).len(),
                forall|k: int| 0 <= k < comps@.len() ==> comps@[k]@ == components(self.bytes())[k],
                forall|k: int| 0 <= k < i ==> #[trigger] components(self.bytes())[k] != seq![0x2Eu8] && components(self.bytes())[k] != seq![0x2Eu8, 0x2E],
            decreases comps@.len() - i,
        {
            let c = comps[i];
            if (c.len() == 1 && c[0] == 0x2E) || (c.len() == 2 && c[0] == 0x2E && c[1] == 0x2E) {
                proof {
                    if c@.len() == 1 {
                        assert(c@ =~= seq![0x2Eu8]);
                    } else {
                        assert(c@ =~= seq![0x2Eu8, 0x2E]);
                    }
                    assert(comps@[i as int]@ == components(self.bytes())[i as int]);
                }
                return false;
            }
            proof {
                if c@ == seq![0x2Eu8] {
                    assert(c@.len() == 1 && c@[0] == 0x2E);
                }
                if c@ == seq![0x2Eu8, 0x2E] {
                    assert(c@.len() == 2 && c@[0] == 0x2E && c@[1] == 0x2E);
                }
                assert(comps@[i as int]@ == components(self.bytes())[i as int]);
            }
            i += 1;
        }
        true
    }

    /// What follows `other` in this path, if this path starts with it
    /// (component by component, both absolute or both relative).
    pub fn starts_with(&self, other: &Path) -> (r: Option<Path<'a>>)
        ensures
            is_absolute_spec(self.bytes()) != is_absolute_spec(other.bytes()) ==> r is None,
            is_absolute_spec(self.bytes()) == is_absolute_spec(other.bytes()) ==> match strip_prefix(self.bytes(), other.bytes()) {
                None => r is None,
                Some(t) => r matches Some(rt) && rt.bytes() == t,
            },
    {
        if self.is_absolute() != other.is_absolute() {
            return None;
        }
        let mut tail = *self;
        let mut orest = *other;
        loop
            invariant
                is_absolute_spec(self.bytes()) == is_absolute_spec(other.bytes()),
                strip_prefix(self.bytes(), other.bytes()) == strip_prefix(tail.bytes(), orest.bytes()),
            decreases tail.bytes().len(),
        {
            let ghost tb = tail.bytes();
            let tail_len = tail.0.len();
            match tail.split_off_first() {
                None => {
                    match orest.split_off_first() {
                        Some(_) => {
                            return None;
                        },
                        None => {
                            return Some(Path(slice_from(tail.0, tail.0.len())));
                        },
                    }
                },
                Some((comp, t)) => {
                    proof {
                        lemma_split_first_shorter(tb);
                    }
                    match orest.split_off_first() {
                        Some((ocomp, ot)) => {
                            if !bytes_eq(comp, ocomp) {
                                return None;
                            }
                            if t.0.len() >= tail_len {
                                return None;
                            }
                            tail = t;
                            orest = ot;
                        },
                        None => {
                            return Some(tail);
                        },
                    }
                },
            }
        }
    }
}

/// The bytes of `s` from `start` on.
pub fn slice_from<'b>(s: &'b [u8], start: usize) -> (r: &'b [u8])
    requires
        start <= s@.len(),
    ensures
        r@ == s@.skip(start as int),
{
    let (_a, b) = s.split_at(start);
    assert(b@ =~= s@.skip(start as int));
    b
}

/// The first `n` bytes of `s`, copied.
pub fn slice_to_vec(s: &[u8], n: usize) -> (r: Vec<u8>)
    requires
        n <= s@.len(),
    ensures
        r@ == s@.take(n as int),
{
    let mut v: Vec<u8> = Vec::new();
    let mut i: usize = 0;
    while i < n
        invariant
            i <= n <= s@.len(),
            v@ == s@.take(i as int),
        decreases n - i,
    {
        v.push(s[i]);
        proof {
            assert(s@.take(i + 1) =~= s@.take(i as int).push(s@[i as int]));
        }
        i += 1;
    }
    v
}

/// Byte strings are equal.
pub fn bytes_eq(a: &[u8], b: &[u8]) -> (r: bool)
    ensures
        r == (a@ == b@),
{
    if a.len() != b.len() {
        return false;
    }
    let mut i: usize = 0;
    while i < a.len()
        invariant
            a@.len() == b@.len(),
            i <= a@.len(),
            forall|k: int| 0 <= k < i ==> a@[k] == b@[k],
        decreases a@.len() - i,
    {
        if a[i] != b[i] {
            return false;
        }
        i += 1;
    }
    assert(a@ =~= b@);
    true
}

impl PathBuf {
    /// An owned copy of a path.
    pub fn from_path(v: &Path) -> (r: PathBuf)
        ensures
            r.0@ == v.bytes(),
    {
        PathBuf(slice_to_vec(v.0, v.0.len()))
    }

    /// The path.
    pub fn as_path(&self) -> (r: Path<'_>)
        ensures
            r.bytes() == self.0@,
    {
        Path(self.0.as_slice())
    }
}

/// A path starts with itself, leaving nothing over.
pub proof fn lemma_starts_with_self(s: Seq<u8>)
    ensures
        strip_prefix(s, s) == Some(Seq::<u8>::empty()),
    decreases s.len(),
{
    match split_first_spec(s) {
        None => {
            assert(s.len() == 0);
        },
        Some((c, t)) => {
            lemma_split_first_shorter(s);
            if t.len() < s.len() {
                lemma_starts_with_self(t);
            } else {
                assert(!has_slash(s));
                assert(t.len() == 0);
                assert(split_first_spec(t) is None);
                lemma_starts_with_self(t);
            }
        },
    }
}

} // verus!
