//! The endpoint and transfer descriptor pools of the communication page:
//! allocation, queueing transfers on an endpoint, and retiring the
//! descriptors the controller hands back on its done list.
use vstd::prelude::*;
use crate::usb_ohci::{EndpointId, TransferDescriptorId, add_loading, interrupt_slot_range, interrupt_slot_range_spec, min_load_slot, on_upstream_path};

verus! {

/// First endpoint-descriptor slot of the general pool (after the HCCA and
/// the interrupt tree).
pub const ED_POOL_START: usize = 48;
/// First endpoint-descriptor slot of the interrupt tree (after the HCCA).
pub const INT_ED_START: usize = 16;
/// End of the endpoint-descriptor slots in the page.
pub const ED_POOL_END: usize = 128;
/// First transfer-descriptor slot (the second half of the page).
pub const TD_POOL_START: usize = 64;
/// End of the transfer-descriptor slots in the page.
pub const TD_POOL_END: usize = 128;

/// Direction/PID of a transfer descriptor.
#[derive(Copy, Clone, Debug, PartialEq, Eq, Structural)]
pub enum TdPid {
    Setup,
    Out,
    In,
}

/// How a transfer descriptor is set up.
#[derive(Copy, Clone, Debug, PartialEq, Eq, Structural)]
pub struct TdFlags {
    pub pid: TdPid,
    /// A short packet is not an error
    pub rounding: bool,
    /// No interrupt on completion
    pub no_int: bool,
    /// Released as soon as it completes
    pub autofree: bool,
}

/// The controller-visible flags word: rounding (bit 18), direction (bits
/// 19-20: setup 0, out 1, in 2), delay-interrupt 7 for none (bits 21-23).
pub open spec fn td_flags_word(f: TdFlags) -> u32 {
    (if f.rounding { 1u32 << 18u32 } else { 0u32 }) | ((match f.pid {
        TdPid::Setup => 0u32,
        TdPid::Out => 1u32,
        TdPid::In => 2u32,
    }) << 19u32) | (if f.no_int { 7u32 << 21u32 } else { 0u32 })
}

impl TdFlags {
    /// The controller-visible flags word.
    pub fn word(&self) -> (r: u32)
        ensures
            r == td_flags_word(*self),
    {
        let pid: u32 = match self.pid {
            TdPid::Setup => 0,
            TdPid::Out => 1,
            TdPid::In => 2,
        };
        (if self.rounding { 1u32 << 18u32 } else { 0u32 }) | (pid << 19u32) | (if self.no_int { 7u32 << 21u32 } else { 0u32 })
    }
}

/// An endpoint descriptor slot.
#[derive(Copy, Clone, Debug)]
pub struct EdSlot {
    pub allocated: bool,
    pub flags: u32,
    pub head_ptr: u32,
    pub tail_ptr: u32,
    pub next_ed: u32,
    /// The transfer descriptor at the tail of its queue (kept empty)
    pub tail_td: TransferDescriptorId,
}

/// A transfer descriptor slot.
#[derive(Copy, Clone, Debug)]
pub struct TdSlot {
    pub allocated: bool,
    pub flags: TdFlags,
    /// First byte of the buffer
    pub cbp: u32,
    pub next_td: u32,
    /// Last byte of the buffer
    pub buffer_end: u32,
    pub complete: bool,
}

/// A free endpoint slot.
pub open spec fn free_ed() -> EdSlot {
    EdSlot { allocated: false, flags: 0, head_ptr: 0, tail_ptr: 0, next_ed: 0, tail_td: TransferDescriptorId { group: 0, idx: 0 } }
}

/// The skip bit of an endpoint's flags: the controller passes over it; it
/// marks an unused placeholder of the interrupt tree.
pub const ED_FLAG_SKIP: u32 = 0x4000;

/// An endpoint slot of a fresh page: the interrupt tree's placeholders are
/// skipped and linked one level down the tree (the last one ends it); the
/// other slots are free.
pub open spec fn initial_ed(page_phys: u32, i: int) -> EdSlot {
    if INT_ED_START <= i < INT_ED_START + 31 {
        EdSlot {
            allocated: false,
            flags: ED_FLAG_SKIP,
            head_ptr: 0,
            tail_ptr: 0,
            next_ed: crate::usb_ohci::int_next_ed(page_phys, i - INT_ED_START) as u32,
            tail_td: TransferDescriptorId { group: 0, idx: 0 },
        }
    } else if i == INT_ED_START + 31 {
        EdSlot { flags: ED_FLAG_SKIP, ..free_ed() }
    } else {
        free_ed()
    }
}

/// A free transfer descriptor slot.
pub open spec fn free_td() -> TdSlot {
    TdSlot {
        allocated: false,
        flags: TdFlags { pid: TdPid::Setup, rounding: false, no_int: false, autofree: false },
        cbp: 0,
        next_td: 0,
        buffer_end: 0,
        complete: false,
    }
}

/// Slot `i` is the first free transfer descriptor of the pool.
pub open spec fn first_free_td(tds: Seq<TdSlot>, i: int) -> bool {
    TD_POOL_START <= i < TD_POOL_END && !tds[i].allocated
        && forall|j: int| TD_POOL_START <= j < i ==> #[trigger] tds[j].allocated
}

/// Some transfer descriptor of the pool is free.
pub open spec fn td_available(tds: Seq<TdSlot>) -> bool {
    exists|i: int| TD_POOL_START <= i < TD_POOL_END && !#[trigger] tds[i].allocated
}

/// Slot `i` is the first free endpoint descriptor of the pool.
pub open spec fn first_free_ed(eds: Seq<EdSlot>, i: int) -> bool {
    ED_POOL_START <= i < ED_POOL_END && !eds[i].allocated
        && forall|j: int| ED_POOL_START <= j < i ==> #[trigger] eds[j].allocated
}

/// Some endpoint descriptor of the pool is free.
pub open spec fn ed_available(eds: Seq<EdSlot>) -> bool {
    exists|i: int| ED_POOL_START <= i < ED_POOL_END && !#[trigger] eds[i].allocated
}

/// The descriptor pools of one communication page.
pub struct DescPools {
    /// Physical address of the page
    pub page_phys: u32,
    pub eds: Vec<EdSlot>,
    pub tds: Vec<TdSlot>,
}

impl DescPools {
    pub open spec fn wf(&self) -> bool {
        &&& self.eds@.len() == 128
        &&& self.tds@.len() == 128
        &&& self.page_phys % 0x1000 == 0
        &&& self.page_phys + 0x1000 <= u32::MAX
        &&& forall|i: int| INT_ED_START <= i < ED_POOL_END && #[trigger] self.eds@[i].allocated ==> self.tail_ok(i)
    }

    /// The queue of endpoint `i` ends in an allocated transfer descriptor of
    /// the pool.
    pub open spec fn tail_ok(&self, i: int) -> bool {
        let t = self.eds@[i].tail_td;
        &&& t.group == 0
        &&& TD_POOL_START <= t.idx < TD_POOL_END
        &&& self.tds@[t.idx as int].allocated
    }

    /// Slot of the transfer descriptor at the tail of endpoint `ep`'s queue.
    pub open spec fn tail_idx(&self, ep: EndpointId) -> int {
        self.eds@[ep.idx as int].tail_td.idx as int
    }

    /// Physical address of transfer descriptor slot `idx`.
    pub open spec fn td_phys(&self, idx: int) -> u32 {
        (self.page_phys + 32 * idx) as u32
    }

    /// Physical address of endpoint descriptor slot `idx`.
    pub open spec fn ed_phys(&self, idx: int) -> u32 {
        (self.page_phys + 16 * idx) as u32
    }

    /// Pools of the page at `page_phys`, every slot free; the interrupt
    /// tree's placeholders are skipped and linked to the next level, the
    /// last one ending the tree.
    pub fn new(page_phys: u32) -> (r: DescPools)
        requires
            page_phys % 0x1000 == 0,
            page_phys + 0x1000 <= u32::MAX,
        ensures
            r.wf(),
            r.page_phys == page_phys,
            forall|i: int| 0 <= i < 128 ==> r.eds@[i] == initial_ed(page_phys, i),
            forall|i: int| 0 <= i < 128 ==> r.tds@[i] == free_td(),
    {
        let mut eds: Vec<EdSlot> = Vec::new();
        let mut tds: Vec<TdSlot> = Vec::new();
        let mut i: usize = 0;
        while i < 128
            invariant
                i <= 128,
                page_phys + 0x1000 <= u32::MAX,
                eds@.len() == i,
                tds@.len() == i,
                forall|k: int| 0 <= k < i ==> eds@[k] == initial_ed(page_phys, k),
                forall|k: int| 0 <= k < i ==> tds@[k] == free_td(),
            decreases 128 - i,
        {
            let ed = if INT_ED_START <= i && i < INT_ED_START + 31 {
                let e = i - INT_ED_START;
                let (s, c): (usize, usize) = if e < 16 { (0, 16) } else if e < 24 { (16, 8) } else if e < 28 { (24, 4) } else if e < 30 { (28, 2) } else { (30, 1) };
                let next = page_phys + 256 + 16 * (s + c) as u32 + 16 * ((e - s) / 2) as u32;
                assert(next == crate::usb_ohci::int_next_ed(page_phys, e as int));
                EdSlot { allocated: false, flags: ED_FLAG_SKIP, head_ptr: 0, tail_ptr: 0, next_ed: next, tail_td: TransferDescriptorId { group: 0, idx: 0 } }
            } else if i == INT_ED_START + 31 {
                EdSlot { allocated: false, flags: ED_FLAG_SKIP, head_ptr: 0, tail_ptr: 0, next_ed: 0, tail_td: TransferDescriptorId { group: 0, idx: 0 } }
            } else {
                EdSlot { allocated: false, flags: 0, head_ptr: 0, tail_ptr: 0, next_ed: 0, tail_td: TransferDescriptorId { group: 0, idx: 0 } }
            };
            eds.push(ed);
            tds.push(TdSlot {
                allocated: false,
                flags: TdFlags { pid: TdPid::Setup, rounding: false, no_int: false, autofree: false },
                cbp: 0,
                next_td: 0,
                buffer_end: 0,
                complete: false,
            });
            i += 1;
        }
        let r = DescPools { page_phys, eds, tds };
        assert forall|i: int| INT_ED_START <= i < ED_POOL_END && #[trigger] r.eds@[i].allocated implies r.tail_ok(i) by {
            assert(r.eds@[i] == initial_ed(page_phys, i));
        }
        r
    }

    /// Physical address of a transfer descriptor of the pool.
    pub fn td_phys_of(&self, id: TransferDescriptorId) -> (r: u32)
        requires
            self.wf(),
            id.group == 0,
            id.idx < 128,
        ensures
            r == self.td_phys(id.idx as int),
    {
        self.page_phys + 32 * id.idx as u32
    }

    /// Claim the first free transfer descriptor.
    pub fn allocate_td(&mut self) -> (r: TransferDescriptorId)
        requires
            old(self).wf(),
            td_available(old(self).tds@),
        ensures
            final(self).wf(),
            final(self).page_phys == old(self).page_phys,
            final(self).eds@ == old(self).eds@,
            r.group == 0,
            first_free_td(old(self).tds@, r.idx as int),
            final(self).tds@ == old(self).tds@.update(r.idx as int, TdSlot {
                allocated: true,
                complete: false,
                ..old(self).tds@[r.idx as int]
            }),
    {
        let mut i: usize = TD_POOL_START;
        while i < TD_POOL_END
            invariant
                TD_POOL_START <= i <= TD_POOL_END,
                self.tds@ == old(self).tds@,
                self.eds@ == old(self).eds@,
                self.page_phys == old(self).page_phys,
                self.wf(),
                td_available(old(self).tds@),
                forall|j: int| TD_POOL_START <= j < i ==> #[trigger] self.tds@[j].allocated,
            decreases TD_POOL_END - i,
        {
            let t = self.tds[i];
            if !t.allocated {
                self.tds.set(i, TdSlot { allocated: true, complete: false, ..t });
                return TransferDescriptorId { group: 0, idx: i as u8 };
            }
            i += 1;
        }
        proof {
            let k = choose|k: int| TD_POOL_START <= k < TD_POOL_END && !#[trigger] old(self).tds@[k].allocated;
            assert(self.tds@[k].allocated);
        }
        TransferDescriptorId { group: 0, idx: 0 }
    }

    /// Claim the first free endpoint descriptor for an endpoint with the
    /// given flags, with an empty queue: one fresh transfer descriptor as
    /// both head and tail, and no next endpoint.
    pub fn allocate_endpoint(&mut self, flags: u32) -> (r: (EndpointId, TransferDescriptorId))
        requires
            old(self).wf(),
            ed_available(old(self).eds@),
            td_available(old(self).tds@),
        ensures
            final(self).wf(),
            final(self).page_phys == old(self).page_phys,
            r.0.group == 0,
            r.1.group == 0,
            first_free_ed(old(self).eds@, r.0.idx as int),
            first_free_td(old(self).tds@, r.1.idx as int),
            final(self).tds@ == old(self).tds@.update(r.1.idx as int, TdSlot {
                allocated: true,
                complete: false,
                ..old(self).tds@[r.1.idx as int]
            }),
            final(self).eds@ == old(self).eds@.update(r.0.idx as int, EdSlot {
                allocated: true,
                flags,
                head_ptr: old(self).td_phys(r.1.idx as int),
                tail_ptr: old(self).td_phys(r.1.idx as int),
                next_ed: 0,
                tail_td: r.1,
            }),
    {
        let mut i: usize = ED_POOL_START;
        while i < ED_POOL_END
            invariant
                ED_POOL_START <= i <= ED_POOL_END,
                self.eds@ == old(self).eds@,
                self.tds@ == old(self).tds@,
                self.page_phys == old(self).page_phys,
                self.wf(),
                ed_available(old(self).eds@),
                td_available(old(self).tds@),
                forall|j: int| ED_POOL_START <= j < i ==> #[trigger] self.eds@[j].allocated,
            decreases ED_POOL_END - i,
        {
            if !self.eds[i].allocated {
                let td = self.allocate_td();
                let tp = self.td_phys_of(td);
                self.eds.set(i, EdSlot { allocated: true, flags, head_ptr: tp, tail_ptr: tp, next_ed: 0, tail_td: td });
                return (EndpointId { group: 0, idx: i as u8 }, td);
            }
            i += 1;
        }
        proof {
            let k = choose|k: int| ED_POOL_START <= k < ED_POOL_END && !#[trigger] old(self).eds@[k].allocated;
            assert(self.eds@[k].allocated);
        }
        (EndpointId { group: 0, idx: 0 }, TransferDescriptorId { group: 0, idx: 0 })
    }

    /// Queue a transfer on an endpoint: a fresh descriptor becomes the new
    /// (empty) tail, and the old tail is filled with the transfer (buffer
    /// `first_byte` to `last_byte`) and linked to the new one. The filled
    /// descriptor comes back.
    pub fn push_td(&mut self, ep: EndpointId, flags: TdFlags, first_byte: u32, last_byte: u32) -> (r: TransferDescriptorId)
        requires
            old(self).wf(),
            ep.group == 0,
            INT_ED_START <= ep.idx < ED_POOL_END,
            old(self).eds@[ep.idx as int].allocated,
            td_available(old(self).tds@),
        ensures
            final(self).wf(),
            final(self).page_phys == old(self).page_phys,
            r == old(self).eds@[ep.idx as int].tail_td,
            final(self).eds@[ep.idx as int].tail_td.group == 0,
            first_free_td(old(self).tds@, final(self).tail_idx(ep)),
            final(self).tail_idx(ep) != r.idx,
            final(self).tds@ == old(self).tds@
                .update(final(self).tail_idx(ep), TdSlot { allocated: true, complete: false, ..old(self).tds@[final(self).tail_idx(ep)] })
                .update(r.idx as int, TdSlot {
                    allocated: true,
                    flags,
                    cbp: first_byte,
                    next_td: old(self).td_phys(final(self).tail_idx(ep)),
                    buffer_end: last_byte,
                    complete: false,
                }),
            final(self).eds@ == old(self).eds@.update(ep.idx as int, EdSlot {
                tail_ptr: old(self).td_phys(final(self).tail_idx(ep)),
                tail_td: final(self).eds@[ep.idx as int].tail_td,
                ..old(self).eds@[ep.idx as int]
            }),
    {
        let old_tail = self.eds[ep.idx as usize].tail_td;
        let new_tail = self.allocate_td();
        let new_phys = self.td_phys_of(new_tail);
        self.tds.set(old_tail.idx as usize, TdSlot {
            allocated: true,
            flags,
            cbp: first_byte,
            next_td: new_phys,
            buffer_end: last_byte,
            complete: false,
        });
        let e = self.eds[ep.idx as usize];
        self.eds.set(ep.idx as usize, EdSlot { tail_ptr: new_phys, tail_td: new_tail, ..e });
        old_tail
    }
}

/// The slot of the transfer descriptor at physical address `phys` of the
/// page at `page_phys`, when it is one.
pub open spec fn td_slot_of(page_phys: u32, phys: u32) -> Option<int> {
    if phys & !0xFFFu32 == page_phys && (phys - page_phys) % 32 == 0 && TD_POOL_START <= (phys - page_phys) / 32 < TD_POOL_END {
        Some((phys - page_phys) / 32)
    } else {
        None
    }
}

/// The done list from `phys`, following the links the controller wrote
/// (`next`, one word per slot), ends (a zero link) within `fuel` steps,
/// every entry is a transfer descriptor of the pool, and every entry
/// completed without error (condition code, bits 28-31 of `flags`, zero).
pub open spec fn done_list_ok(page_phys: u32, next: Seq<u32>, flags: Seq<u32>, phys: u32, fuel: nat) -> bool
    decreases fuel,
{
    if phys == 0 {
        true
    } else if fuel == 0 {
        false
    } else {
        match td_slot_of(page_phys, phys) {
            None => false,
            Some(i) => flags[i] >> 28u32 == 0 && done_list_ok(page_phys, next, flags, next[i] & !0xFu32, (fuel - 1) as nat),
        }
    }
}

/// The transfer descriptors of the done list from `phys`, in list order.
pub open spec fn done_list(page_phys: u32, next: Seq<u32>, phys: u32, fuel: nat) -> Seq<int>
    decreases fuel,
{
    if phys == 0 || fuel == 0 {
        Seq::empty()
    } else {
        match td_slot_of(page_phys, phys) {
            None => Seq::empty(),
            Some(i) => seq![i] + done_list(page_phys, next, next[i] & !0xFu32, (fuel - 1) as nat),
        }
    }
}

/// The slots of the done list the controller reported (`done_head`, as
/// read from the HCCA), given the link and flags words it wrote to each
/// slot.
pub fn walk_done_list(page_phys: u32, done_head: u32, next: &[u32], flags: &[u32]) -> (r: Vec<usize>)
    requires
        page_phys & 0xFFF == 0,
        next@.len() == 128,
        flags@.len() == 128,
        done_list_ok(page_phys, next@, flags@, done_head & !0xFu32, 64),
    ensures
        r@.map_values(|i: usize| i as int) == done_list(page_phys, next@, done_head & !0xFu32, 64),
{
    let mut out: Vec<usize> = Vec::new();
    let mut phys = done_head & !0xF;
    let ghost mut fuel: nat = 64;
    while phys != 0
        invariant
            page_phys & 0xFFF == 0,
            next@.len() == 128,
            flags@.len() == 128,
            done_list_ok(page_phys, next@, flags@, phys, fuel),
            done_list(page_phys, next@, done_head & !0xFu32, 64)
                == out@.map_values(|i: usize| i as int) + done_list(page_phys, next@, phys, fuel),
        decreases fuel,
    {
        let ghost old_out = out@;
        assert(phys & !0xFFFu32 <= phys) by (bit_vector);
        let ofs = phys - page_phys;
        let idx = (ofs / 32) as usize;
        let nx = next[idx] & !0xF;
        out.push(idx);
        proof {
            assert(td_slot_of(page_phys, phys) == Some(idx as int));
            let f = |i: usize| i as int;
            assert(out@.map_values(f) =~= old_out.map_values(f).push(idx as int));
            assert(done_list(page_phys, next@, phys, fuel) == seq![idx as int] + done_list(page_phys, next@, nx, (fuel - 1) as nat));
            assert(out@.map_values(f) + done_list(page_phys, next@, nx, (fuel - 1) as nat)
                =~= old_out.map_values(f) + done_list(page_phys, next@, phys, fuel));
            fuel = (fuel - 1) as nat;
        }
        phys = nx;
    }
    proof {
        let f = |i: usize| i as int;
        assert(out@.map_values(f) + done_list(page_phys, next@, phys, fuel) =~= out@.map_values(f));
    }
    out
}

/// Whether the done list the controller reported can be walked: it ends
/// within 64 entries, each a transfer descriptor of the pool that completed
/// without error.
pub fn check_done_list(page_phys: u32, done_head: u32, next: &[u32], flags: &[u32]) -> (r: bool)
    requires
        next@.len() == 128,
        flags@.len() == 128,
    ensures
        r == done_list_ok(page_phys, next@, flags@, done_head & !0xFu32, 64),
{
    let mut phys = done_head & !0xF;
    let mut fuel: u32 = 64;
    while phys != 0
        invariant
            next@.len() == 128,
            flags@.len() == 128,
            fuel <= 64,
            done_list_ok(page_phys, next@, flags@, done_head & !0xFu32, 64)
                == done_list_ok(page_phys, next@, flags@, phys, fuel as nat),
        decreases fuel,
    {
        if fuel == 0 {
            return false;
        }
        if phys & !0xFFF != page_phys {
            return false;
        }
        assert(phys & !0xFFFu32 <= phys) by (bit_vector);
        let ofs = phys - page_phys;
        if ofs % 32 != 0 {
            return false;
        }
        let idx = (ofs / 32) as usize;
        if idx < TD_POOL_START || idx >= TD_POOL_END {
            return false;
        }
        assert(td_slot_of(page_phys, phys) == Some(idx as int));
        if flags[idx] >> 28 != 0 {
            return false;
        }
        phys = next[idx] & !0xF;
        fuel = fuel - 1;
    }
    true
}

impl DescPools {
    /// Whether the transfer descriptor at `idx` may be retired: it is not
    /// released on completion, or no endpoint holds it as its tail.
    pub fn may_retire(&self, idx: usize) -> (r: bool)
        requires
            self.wf(),
            TD_POOL_START <= idx < TD_POOL_END,
        ensures
            r == (!self.tds@[idx as int].flags.autofree || forall|i: int| INT_ED_START <= i < ED_POOL_END
                && #[trigger] self.eds@[i].allocated ==> self.eds@[i].tail_td.idx != idx),
    {
        if !self.tds[idx].flags.autofree {
            return true;
        }
        assert(self.tds@[idx as int].flags.autofree);
        let mut i: usize = INT_ED_START;
        while i < ED_POOL_END
            invariant
                INT_ED_START <= i <= ED_POOL_END,
                self.wf(),
                TD_POOL_START <= idx < TD_POOL_END,
                self.tds@[idx as int].flags.autofree,
                forall|j: int| INT_ED_START <= j < i && #[trigger] self.eds@[j].allocated ==> self.eds@[j].tail_td.idx != idx,
            decreases ED_POOL_END - i,
        {
            if self.eds[i].allocated && self.eds[i].tail_td.idx as usize == idx {
                assert(self.eds@[i as int].allocated && self.eds@[i as int].tail_td.idx == idx);
                return false;
            }
            i += 1;
        }
        true
    }

    /// Retire a transfer descriptor the controller finished: it is marked
    /// complete, and released at once if it was queued to be. Says whether
    /// it was released.
    pub fn retire(&mut self, idx: usize) -> (r: bool)
        requires
            old(self).wf(),
            TD_POOL_START <= idx < TD_POOL_END,
            !old(self).tds@[idx as int].flags.autofree || forall|i: int| INT_ED_START <= i < ED_POOL_END
                && #[trigger] old(self).eds@[i].allocated ==> old(self).eds@[i].tail_td.idx != idx,
        ensures
            final(self).wf(),
            final(self).page_phys == old(self).page_phys,
            final(self).eds@ == old(self).eds@,
            r == old(self).tds@[idx as int].flags.autofree,
            final(self).tds@ == old(self).tds@.update(idx as int, TdSlot {
                complete: true,
                allocated: old(self).tds@[idx as int].allocated && !r,
                ..old(self).tds@[idx as int]
            }),
    {
        let t = self.tds[idx];
        let free = t.flags.autofree;
        self.tds.set(idx, TdSlot { complete: true, allocated: t.allocated && !free, ..t });
        proof {
            assert forall|i: int| INT_ED_START <= i < ED_POOL_END && #[trigger] self.eds@[i].allocated implies self.tail_ok(i) by {
                assert(old(self).tail_ok(i));
            }
        }
        free
    }

    /// Whether a transfer descriptor has been retired.
    pub fn td_complete(&self, idx: usize) -> (r: bool)
        requires
            self.wf(),
            idx < 128,
        ensures
            r == self.tds@[idx as int].complete,
    {
        self.tds[idx].complete
    }

    /// Release a transfer descriptor the driver is done with (not the tail
    /// of an endpoint's queue).
    pub fn release_td(&mut self, idx: usize)
        requires
            old(self).wf(),
            idx < 128,
            forall|i: int| INT_ED_START <= i < ED_POOL_END && #[trigger] old(self).eds@[i].allocated
                ==> old(self).eds@[i].tail_td.idx != idx,
        ensures
            final(self).wf(),
            final(self).page_phys == old(self).page_phys,
            final(self).eds@ == old(self).eds@,
            final(self).tds@ == old(self).tds@.update(idx as int, TdSlot { allocated: false, ..old(self).tds@[idx as int] }),
    {
        let t = self.tds[idx];
        self.tds.set(idx, TdSlot { allocated: false, ..t });
        proof {
            assert forall|i: int| INT_ED_START <= i < ED_POOL_END && #[trigger] self.eds@[i].allocated implies self.tail_ok(i) by {
                assert(old(self).tail_ok(i));
            }
        }
    }

    /// Put an endpoint at the head of a list (control or bulk) whose head
    /// register holds `existing_head`: the endpoint links to the old head,
    /// and the new head to write is the endpoint's address.
    pub fn link_at_head(&mut self, ep: EndpointId, existing_head: u32) -> (r: u32)
        requires
            old(self).wf(),
            ep.group == 0,
            INT_ED_START <= ep.idx < ED_POOL_END,
        ensures
            final(self).wf(),
            final(self).page_phys == old(self).page_phys,
            final(self).tds@ == old(self).tds@,
            final(self).eds@ == old(self).eds@.update(ep.idx as int, EdSlot { next_ed: existing_head, ..old(self).eds@[ep.idx as int] }),
            r == old(self).ed_phys(ep.idx as int),
    {
        let e = self.eds[ep.idx as usize];
        self.eds.set(ep.idx as usize, EdSlot { next_ed: existing_head, ..e });
        proof {
            assert forall|i: int| INT_ED_START <= i < ED_POOL_END && #[trigger] self.eds@[i].allocated implies self.tail_ok(i) by {
                assert(old(self).tail_ok(i));
            }
        }
        self.page_phys + 16 * ep.idx as u32
    }
}

/// The offset in `start .. start + len` of the least loaded slot (the
/// first on ties).
pub open spec fn is_least_loaded(loading: Seq<usize>, start: int, len: int, m: int) -> bool {
    &&& 0 <= m < len
    &&& forall|k: int| start <= k < start + len ==> loading[start + m] <= #[trigger] loading[k]
    &&& forall|k: int| start <= k < start + m ==> loading[start + m] < #[trigger] loading[k]
}

/// The least loaded slot of the lists of period `2^period_pow_2` ms.
pub open spec fn chosen_int_slot(loading: Seq<usize>, period_pow_2: usize) -> int {
    let (start, len) = interrupt_slot_range_spec(period_pow_2);
    start + choose|m: int| is_least_loaded(loading, start as int, len as int, m)
}

proof fn lemma_least_loaded_unique(loading: Seq<usize>, start: int, len: int, m1: int, m2: int)
    requires
        is_least_loaded(loading, start, len, m1),
        is_least_loaded(loading, start, len, m2),
    ensures
        m1 == m2,
{
    if m1 < m2 {
        assert(loading[start + m2] < loading[start + m1]);
    } else if m2 < m1 {
        assert(loading[start + m1] < loading[start + m2]);
    }
}

impl DescPools {
    /// Register an interrupt endpoint polled every `2^period_pow_2` ms: the
    /// least loaded list of that period takes it (its loading, and that of
    /// every list downstream, grows by one). An unused placeholder of that
    /// list becomes the endpoint itself (with an empty queue, unlinked);
    /// otherwise a fresh endpoint is linked in right after the placeholder.
    pub fn register_interrupt_ed(&mut self, loading: &mut Vec<usize>, period_pow_2: usize, flags: u32) -> (r: EndpointId)
        requires
            old(self).wf(),
            old(loading)@.len() >= 31,
            forall|k: int| 0 <= k < 31 ==> old(loading)@[k] < usize::MAX,
            td_available(old(self).tds@),
            old(self).eds@[INT_ED_START + chosen_int_slot(old(loading)@, period_pow_2)].flags & ED_FLAG_SKIP == 0
                ==> ed_available(old(self).eds@),
        ensures
            final(self).wf(),
            final(self).page_phys == old(self).page_phys,
            r.group == 0,
            ({
                let slot = chosen_int_slot(old(loading)@, period_pow_2);
                let ph = INT_ED_START + slot;
                &&& final(loading)@.len() == old(loading)@.len()
                &&& forall|k: int| 0 <= k < old(loading)@.len() ==> #[trigger] final(loading)@[k] == old(loading)@[k] + (
                    if on_upstream_path(slot, k) { 1int } else { 0int })
                &&& exists|t: int| #[trigger] first_free_td(old(self).tds@, t)
                    && final(self).tds@ == old(self).tds@.update(t, TdSlot { allocated: true, complete: false, ..old(self).tds@[t] })
                    && if old(self).eds@[ph].flags & ED_FLAG_SKIP != 0 {
                        &&& r.idx == ph
                        &&& final(self).eds@ == old(self).eds@.update(ph, EdSlot {
                            allocated: true,
                            flags,
                            head_ptr: old(self).td_phys(t),
                            tail_ptr: old(self).td_phys(t),
                            next_ed: 0,
                            tail_td: TransferDescriptorId { group: 0, idx: t as u8 },
                        })
                    } else {
                        &&& first_free_ed(old(self).eds@, r.idx as int)
                        &&& final(self).eds@ == old(self).eds@.update(r.idx as int, EdSlot {
                            allocated: true,
                            flags,
                            head_ptr: old(self).td_phys(t),
                            tail_ptr: old(self).td_phys(t),
                            next_ed: old(self).eds@[ph].next_ed,
                            tail_td: TransferDescriptorId { group: 0, idx: t as u8 },
                        }).update(ph, EdSlot { next_ed: old(self).ed_phys(r.idx as int), ..old(self).eds@[ph] })
                    }
            }),
    {
        let (start, len) = interrupt_slot_range(period_pow_2);
        let m = min_load_slot(loading.as_slice(), start, len);
        proof {
            let c = choose|m: int| is_least_loaded(loading@, start as int, len as int, m);
            assert(is_least_loaded(loading@, start as int, len as int, m as int));
            lemma_least_loaded_unique(loading@, start as int, len as int, c, m as int);
        }
        let slot = start + m;
        add_loading(loading, slot);
        let ph = INT_ED_START + slot;
        let ph_ed = self.eds[ph];
        if ph_ed.flags & ED_FLAG_SKIP == 0 {
            let (new_ed, td) = self.allocate_endpoint(flags);
            let e = self.eds[new_ed.idx as usize];
            self.eds.set(new_ed.idx as usize, EdSlot { next_ed: ph_ed.next_ed, ..e });
            let p = self.page_phys + 16 * new_ed.idx as u32;
            self.eds.set(ph, EdSlot { next_ed: p, ..ph_ed });
            proof {
                assert(self.eds@[ph as int].allocated == old(self).eds@[ph as int].allocated);
                assert forall|i: int| INT_ED_START <= i < ED_POOL_END && #[trigger] self.eds@[i].allocated implies self.tail_ok(i) by {
                    if i != ph && i != new_ed.idx {
                        assert(old(self).tail_ok(i));
                    } else if i == ph && i != new_ed.idx {
                        assert(old(self).tail_ok(i));
                    }
                }
            }
            new_ed
        } else {
            let td = self.allocate_td();
            let tp = self.td_phys_of(td);
            self.eds.set(ph, EdSlot { allocated: true, flags, head_ptr: tp, tail_ptr: tp, next_ed: 0, tail_td: td });
            proof {
                assert forall|i: int| INT_ED_START <= i < ED_POOL_END && #[trigger] self.eds@[i].allocated implies self.tail_ok(i) by {
                    if i != ph {
                        assert(old(self).tail_ok(i));
                    }
                }
            }
            EndpointId { group: 0, idx: ph as u8 }
        }
    }
}

} // verus!
