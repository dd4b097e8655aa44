//! Transfers on the OHCI: what an interrupt status asks for, and the
//! descriptors queued for control, bulk and interrupt transfers.
use vstd::prelude::*;
use crate::usb_ohci::{EndpointId, TransferDescriptorId};
use crate::usb_ohci::pools::{
    DescPools, TdFlags, TdPid, TdSlot, INT_ED_START, ED_POOL_END, TD_POOL_START, TD_POOL_END, td_available,
    first_free_td,
};

verus! {

/// What an interrupt status word (HcInterruptStatus) asks for.
#[derive(Copy, Clone, Debug, PartialEq, Eq, Structural)]
pub struct IrqStatus {
    /// Scheduling overrun (bit 0)
    pub scheduling_overrun: bool,
    /// The done list was written back (bit 1)
    pub writeback_done_head: bool,
    /// Unrecoverable error (bit 4)
    pub unrecoverable_error: bool,
    /// A root-hub register changed (bit 6)
    pub root_hub_status_change: bool,
    /// The interrupt was ours (some bit set); the whole word is written back to clear it
    pub handled: bool,
}

/// Decode an interrupt status word.
pub fn irq_status(v: u32) -> (r: IrqStatus)
    ensures
        r.scheduling_overrun == (v & 0x01 != 0),
        r.writeback_done_head == (v & 0x02 != 0),
        r.unrecoverable_error == (v & 0x10 != 0),
        r.root_hub_status_change == (v & 0x40 != 0),
        r.handled == (v != 0),
{
    IrqStatus {
        scheduling_overrun: v & 0x01 != 0,
        writeback_done_head: v & 0x02 != 0,
        unrecoverable_error: v & 0x10 != 0,
        root_hub_status_change: v & 0x40 != 0,
        handled: v != 0,
    }
}

/// Descriptor settings of the three stages of a control transfer: the
/// setup stage (released on completion, no interrupt), the data stage in
/// the transfer's direction (no interrupt; short reads allowed), and the
/// status stage in the opposite direction.
pub open spec fn control_stage_flags(dir_in: bool) -> (TdFlags, TdFlags, TdFlags) {
    (
        TdFlags { pid: TdPid::Setup, rounding: false, no_int: true, autofree: true },
        TdFlags { pid: if dir_in { TdPid::In } else { TdPid::Out }, rounding: dir_in, no_int: true, autofree: false },
        TdFlags { pid: if dir_in { TdPid::Out } else { TdPid::In }, rounding: false, no_int: false, autofree: false },
    )
}

/// The descriptors of a queued control transfer.
#[derive(Copy, Clone, Debug, PartialEq, Eq, Structural)]
pub struct ControlTds {
    pub setup: TransferDescriptorId,
    pub data: TransferDescriptorId,
    pub status: TransferDescriptorId,
}

/// The endpoint's queue, from `td`: `td` is filled with the given stage.
pub open spec fn stage_ok(p: DescPools, td: TransferDescriptorId, flags: TdFlags, first: u32, last: u32, next: u32) -> bool {
    &&& td.group == 0
    &&& TD_POOL_START <= td.idx < TD_POOL_END
    &&& p.tds@[td.idx as int] == (TdSlot { allocated: true, flags, cbp: first, next_td: next, buffer_end: last, complete: false })
}

/// Queue a control transfer on endpoint `ep`: setup packet at
/// `setup.0 ..= setup.1`, data buffer at `data.0 ..= data.1` (zeros for
/// none), in the direction `dir_in`. Three descriptors are filled, linked
/// in order, ahead of a fresh empty tail.
pub fn queue_control(pools: &mut DescPools, ep: EndpointId, dir_in: bool, setup: (u32, u32), data: (u32, u32)) -> (r: ControlTds)
    requires
        old(pools).wf(),
        ep.group == 0,
        INT_ED_START <= ep.idx < ED_POOL_END,
        old(pools).eds@[ep.idx as int].allocated,
        exists|a: int, b: int, c: int| TD_POOL_START <= a < b < c < TD_POOL_END
            && !old(pools).tds@[a].allocated && !old(pools).tds@[b].allocated && !old(pools).tds@[c].allocated,
    ensures
        final(pools).wf(),
        final(pools).page_phys == old(pools).page_phys,
        r.setup == old(pools).eds@[ep.idx as int].tail_td,
        stage_ok(*final(pools), r.setup, control_stage_flags(dir_in).0, setup.0, setup.1, final(pools).td_phys(r.data.idx as int)),
        stage_ok(*final(pools), r.data, control_stage_flags(dir_in).1, data.0, data.1, final(pools).td_phys(r.status.idx as int)),
        stage_ok(*final(pools), r.status, control_stage_flags(dir_in).2, 0, 0, final(pools).eds@[ep.idx as int].tail_ptr),
        r.setup.idx != r.data.idx && r.data.idx != r.status.idx && r.setup.idx != r.status.idx,
        final(pools).eds@[ep.idx as int].tail_td.idx != r.data.idx,
        final(pools).eds@[ep.idx as int].tail_td.idx != r.status.idx,
        final(pools).eds@[ep.idx as int].tail_ptr == final(pools).td_phys(final(pools).eds@[ep.idx as int].tail_td.idx as int),
        forall|i: int| 0 <= i < 128 && i != ep.idx ==> final(pools).eds@[i] == old(pools).eds@[i],
        !old(pools).tds@[r.data.idx as int].allocated,
        !old(pools).tds@[r.status.idx as int].allocated,
        !old(pools).tds@[final(pools).tail_idx(ep)].allocated,
        final(pools).tail_idx(ep) != r.setup.idx,
        final(pools).tds@[final(pools).tail_idx(ep)] == (TdSlot {
            allocated: true,
            complete: false,
            ..old(pools).tds@[final(pools).tail_idx(ep)]
        }),
        forall|i: int| 0 <= i < 128 && i != r.setup.idx && i != r.data.idx && i != r.status.idx
            && i != final(pools).tail_idx(ep) ==> #[trigger] final(pools).tds@[i] == old(pools).tds@[i],
{
    let (f_setup, f_data, f_status) = if dir_in {
        (
            TdFlags { pid: TdPid::Setup, rounding: false, no_int: true, autofree: true },
            TdFlags { pid: TdPid::In, rounding: true, no_int: true, autofree: false },
            TdFlags { pid: TdPid::Out, rounding: false, no_int: false, autofree: false },
        )
    } else {
        (
            TdFlags { pid: TdPid::Setup, rounding: false, no_int: true, autofree: true },
            TdFlags { pid: TdPid::Out, rounding: false, no_int: true, autofree: false },
            TdFlags { pid: TdPid::In, rounding: false, no_int: false, autofree: false },
        )
    };
    let ghost p0 = *pools;
    let ghost (a, b, c) = choose|a: int, b: int, c: int| TD_POOL_START <= a < b < c < TD_POOL_END
        && !p0.tds@[a].allocated && !p0.tds@[b].allocated && !p0.tds@[c].allocated;
    assert(td_available(p0.tds@)) by { assert(!p0.tds@[a].allocated); }
    let td_setup = pools.push_td(ep, f_setup, setup.0, setup.1);
    let ghost p1 = *pools;
    let ghost n1 = p1.tail_idx(ep);
    // two of the three free slots are still free
    let ghost (x, y) = if n1 == a { (b, c) } else { (a, b) };
    proof {
        assert(n1 <= a) by {
            if n1 > a {
                assert(p0.tds@[a].allocated);
            }
        }
        assert(!p1.tds@[x].allocated && !p1.tds@[y].allocated && x < y);
        assert(td_available(p1.tds@)) by { assert(!p1.tds@[x].allocated); }
    }
    let td_data = pools.push_td(ep, f_data, data.0, data.1);
    let ghost p2 = *pools;
    let ghost n2 = p2.tail_idx(ep);
    proof {
        assert(n2 <= x) by {
            if n2 > x {
                assert(p1.tds@[x].allocated);
            }
        }
        assert(!p2.tds@[y].allocated);
        assert(td_available(p2.tds@)) by { assert(!p2.tds@[y].allocated); }
    }
    let td_status = pools.push_td(ep, f_status, 0, 0);
    let ghost p3 = *pools;
    let ghost n3 = p3.tail_idx(ep);
    proof {
        assert(td_data == p1.eds@[ep.idx as int].tail_td);
        assert(td_status == p2.eds@[ep.idx as int].tail_td);
        assert(p0.tds@[td_setup.idx as int].allocated) by {
            assert(p0.tail_ok(ep.idx as int));
        }
        assert(p1.tds@[td_data.idx as int].allocated);
        assert(p2.tds@[td_status.idx as int].allocated);
        assert(n1 != td_setup.idx);
        assert(n2 != n1 && n2 != td_setup.idx);
        assert(p2.tds@[td_setup.idx as int].allocated);
        assert(p2.tds@[n1].allocated);
        assert(n3 != n2 && n3 != n1 && n3 != td_setup.idx);
        assert(p1.tds@[n2] == p0.tds@[n2]);
        assert(p2.tds@[n3] == p1.tds@[n3]);
        assert(p1.tds@[n3] == p0.tds@[n3]);
    }
    ControlTds { setup: td_setup, data: td_data, status: td_status }
}

/// No endpoint's queue ends in slot `idx`.
pub open spec fn not_a_tail(p: DescPools, idx: int) -> bool {
    forall|i: int| INT_ED_START <= i < ED_POOL_END && #[trigger] p.eds@[i].allocated ==> p.eds@[i].tail_td.idx != idx
}

/// Finish a control transfer whose status stage completed: the data and
/// status descriptors are released (the setup one released itself), and
/// the length moved comes back: all of an OUT transfer's data, and for an
/// IN transfer the buffer less what the data stage left over (the whole
/// buffer when it reports nothing moved at all).
pub fn finish_control(pools: &mut DescPools, tds: ControlTds, dir_in: bool, data_len: usize, remaining: usize) -> (r: usize)
    requires
        old(pools).wf(),
        TD_POOL_START <= tds.data.idx < TD_POOL_END,
        TD_POOL_START <= tds.status.idx < TD_POOL_END,
        not_a_tail(*old(pools), tds.data.idx as int),
        not_a_tail(*old(pools), tds.status.idx as int),
        dir_in ==> remaining <= data_len,
    ensures
        final(pools).wf(),
        final(pools).page_phys == old(pools).page_phys,
        final(pools).eds@ == old(pools).eds@,
        final(pools).tds@ == old(pools).tds@
            .update(tds.data.idx as int, TdSlot { allocated: false, ..old(pools).tds@[tds.data.idx as int] })
            .update(tds.status.idx as int, TdSlot { allocated: false, ..old(pools).tds@[tds.status.idx as int] }),
        !dir_in ==> r == data_len,
        dir_in && remaining == data_len ==> r == data_len,
        dir_in && remaining != data_len ==> r == data_len - remaining,
{
    pools.release_td(tds.data.idx as usize);
    pools.release_td(tds.status.idx as usize);
    if dir_in {
        crate::usb_ohci::control_in_len(remaining, data_len)
    } else {
        data_len
    }
}

/// Descriptor settings of a bulk transfer in the given direction.
pub fn bulk_flags(dir_in: bool) -> (r: TdFlags)
    ensures
        r == (TdFlags { pid: if dir_in { TdPid::In } else { TdPid::Out }, rounding: false, no_int: false, autofree: false }),
{
    TdFlags { pid: if dir_in { TdPid::In } else { TdPid::Out }, rounding: false, no_int: false, autofree: false }
}

/// Descriptor settings of an interrupt transfer: IN, short reads allowed.
pub fn interrupt_flags() -> (r: TdFlags)
    ensures
        r == (TdFlags { pid: TdPid::In, rounding: true, no_int: false, autofree: false }),
{
    TdFlags { pid: TdPid::In, rounding: true, no_int: false, autofree: false }
}

/// Bytes an interrupt transfer delivered into a buffer of the endpoint's
/// maximum packet size, given what it left over.
pub fn interrupt_valid_len(max_packet_size: usize, remaining: usize) -> (r: usize)
    requires
        remaining <= max_packet_size,
    ensures
        r == max_packet_size - remaining,
{
    max_packet_size - remaining
}

} // verus!
