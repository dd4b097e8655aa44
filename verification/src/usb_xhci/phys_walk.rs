//! Splitting a buffer into the pieces a transfer TRB can each reach as one
//! run of physical memory. The physical addresses come from the page
//! tables, so the walk asks for them one at a time: the caller looks up the
//! offset that `probe` names and reports whether it continues the piece.
use vstd::prelude::*;

verus! {

/// Page size assumed by the walk.
pub const WALK_PAGE: usize = 0x1000;

/// Position of the walk over a buffer of `len` bytes: the current piece
/// starts at `ofs` and is known to run for `remain` bytes.
pub struct PhysWalk {
    pub len: usize,
    pub ofs: usize,
    pub remain: usize,
}

impl PhysWalk {
    /// Start a walk over the `len` bytes at virtual address `base`: the
    /// first piece runs at least to the end of the first page.
    pub fn start(base: usize, len: usize) -> (r: PhysWalk)
        ensures
            r.len == len,
            r.ofs == 0,
            r.remain == (if WALK_PAGE - base % 0x1000 < len { WALK_PAGE - base % 0x1000 } else { len as int }),
    {
        let low = base & 0xFFF;
        assert(low == base % 0x1000) by (bit_vector)
            requires
                low == base & 0xFFF,
        ;
        let first = WALK_PAGE - low;
        PhysWalk { len, ofs: 0, remain: if first < len { first } else { len } }
    }

    /// Every piece has been handed out.
    pub fn done(&self) -> (r: bool)
        ensures
            r == (self.ofs == self.len),
    {
        self.ofs == self.len
    }

    /// The offset whose physical address decides whether the current piece
    /// grows (it grows when that address is the piece's start plus
    /// `remain`), or `None` when the piece already reaches the end.
    pub fn probe(&self) -> (r: Option<usize>)
        ensures
            self.ofs + self.remain < self.len ==> r == Some((self.ofs + self.remain) as usize),
            self.ofs + self.remain >= self.len ==> r is None,
    {
        if self.remain < self.len && self.ofs < self.len - self.remain {
            Some(self.ofs + self.remain)
        } else {
            None
        }
    }

    /// The probed byte continues the piece: grow it to the end of the
    /// buffer when more than a page is left past it, else by one page.
    pub fn extend(&mut self)
        requires
            old(self).ofs + old(self).remain < old(self).len,
            old(self).len + WALK_PAGE <= usize::MAX,
        ensures
            final(self).len == old(self).len,
            final(self).ofs == old(self).ofs,
            final(self).remain == (if old(self).ofs + old(self).remain + WALK_PAGE < old(self).len {
                old(self).len - old(self).ofs
            } else {
                old(self).remain + WALK_PAGE
            }),
    {
        if self.ofs + self.remain + WALK_PAGE < self.len {
            self.remain = self.len - self.ofs;
        } else {
            self.remain = self.remain + WALK_PAGE;
        }
    }

    /// Hand out the current piece: its start offset, its length and whether
    /// it ends the buffer; the next piece starts after it.
    pub fn take_piece(&mut self) -> (r: (usize, usize, bool))
        requires
            old(self).ofs + old(self).remain <= usize::MAX,
        ensures
            r == (old(self).ofs, old(self).remain, old(self).ofs + old(self).remain == old(self).len),
            final(self).len == old(self).len,
            final(self).ofs == old(self).ofs + old(self).remain,
            final(self).remain == 0,
    {
        let r = (self.ofs, self.remain, self.ofs + self.remain == self.len);
        self.ofs = self.ofs + self.remain;
        self.remain = 0;
        r
    }
}

} // verus!
