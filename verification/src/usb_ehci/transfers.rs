//! Control and bulk transfers on the EHCI: the descriptor chains queued for
//! them and what their completion gives back.
use vstd::prelude::*;
use crate::usb_ehci::desc_pools::td_pool::{TdPool, TdHandle, TD_COUNT, TD_SIZE};
use crate::usb_ehci::hw_structs::{TransferDesc, Pid, td_token};

verus! {

/// A buffer as the controller sees it: its first page (with the offset),
/// the page after, and its length.
#[derive(Copy, Clone, Debug, PartialEq, Eq, Structural)]
pub struct BufferRange {
    pub phys0: u32,
    pub phys1: u32,
    pub len: usize,
}

/// The descriptor a transfer stage gets: its PID, length and buffer, linked
/// to the descriptor at `link` (1: the end).
pub open spec fn stage_td(pid: Pid, b: BufferRange, link: u32) -> TransferDesc {
    TransferDesc { link, link2: 1, token: td_token(pid, b.len as u32), pages: [b.phys0, b.phys1, 0, 0, 0] }
}

/// No buffer.
pub open spec fn no_buffer() -> BufferRange {
    BufferRange { phys0: 0, phys1: 0, len: 0 }
}

/// Physical address of descriptor `i` of the pool.
pub open spec fn td_addr(p: TdPool, i: int) -> u32 {
    (p.phys0 + TD_SIZE * i) as u32
}

/// Descriptor `s` heads the chain of a control transfer: the setup stage,
/// then the data stage (when there is data) in the transfer's direction,
/// then the status stage in the other direction, each linked to the next.
pub open spec fn control_chain(p: TdPool, s: int, dir_in: bool, setup: BufferRange, data: BufferRange) -> bool {
    let status_pid = if dir_in { Pid::Out } else { Pid::In };
    let data_pid = if dir_in { Pid::In } else { Pid::Out };
    &&& 0 <= s < TD_COUNT
    &&& p.in_use(s)
    &&& p.next@[s] is Some
    &&& ({
        let d = p.next@[s]->0.index();
        &&& 0 <= d < TD_COUNT
        &&& d != s
        &&& p.in_use(d)
        &&& p.data@[s] == stage_td(Pid::Setup, setup, td_addr(p, d))
        &&& if data.len > 0 {
            &&& p.next@[d] is Some
            &&& ({
                let st = p.next@[d]->0.index();
                &&& 0 <= st < TD_COUNT
                &&& st != s && st != d
                &&& p.in_use(st)
                &&& p.data@[d] == stage_td(data_pid, data, td_addr(p, st))
                &&& p.next@[st] is None
                &&& p.data@[st] == stage_td(status_pid, no_buffer(), 1)
            })
        } else {
            &&& p.next@[d] is None
            &&& p.data@[d] == stage_td(status_pid, no_buffer(), 1)
        }
    })
}

/// Descriptor `i` belongs to the chain headed by `s` (as `control_chain`
/// lays it out): the setup stage, the one after it, and the one after that
/// when the transfer has data (`data_len` bytes of it).
pub open spec fn chain_member(p: TdPool, s: int, data_len: usize, i: int) -> bool {
    let d = p.next@[s]->0.index();
    ||| i == s
    ||| i == d
    ||| (data_len > 0 && i == p.next@[d]->0.index())
}

/// Queue the descriptors of a control transfer (built from the end: status,
/// data if any, setup) and hand back the first.
pub fn queue_control(pool: &mut TdPool, dir_in: bool, setup: BufferRange, data: BufferRange) -> (r: TdHandle)
    requires
        old(pool).wf(),
        old(pool).free_count() >= 3,
        setup.len < 0x1000,
        data.len < 0x1000,
    ensures
        final(pool).wf(),
        final(pool).phys0 == old(pool).phys0,
        control_chain(*final(pool), r.index(), dir_in, setup, data),
        forall|i: int| 0 <= i < TD_COUNT && #[trigger] chain_member(*final(pool), r.index(), data.len, i)
            ==> !old(pool).in_use(i),
        forall|i: int| 0 <= i < TD_COUNT && !#[trigger] chain_member(*final(pool), r.index(), data.len, i)
            ==> final(pool).in_use(i) == old(pool).in_use(i) && final(pool).data@[i] == old(pool).data@[i]
                && final(pool).next@[i] == old(pool).next@[i],
        final(pool).free_count() + (if data.len > 0 { 3int } else { 2int }) == old(pool).free_count(),
{
    let status_pid = if dir_in { Pid::Out } else { Pid::In };
    let data_pid = if dir_in { Pid::In } else { Pid::Out };
    proof {
        crate::usb_ehci::desc_pools::td_pool::lemma_free_upto_has_free(pool.alloced@, 128);
    }
    let td_status = pool.allocate(status_pid, 0, 0, 0, None);
    let ghost st = td_status.index();
    let ghost p1 = *pool;
    if data.len > 0 {
        proof {
            crate::usb_ehci::desc_pools::td_pool::lemma_free_upto_has_free(pool.alloced@, 128);
        }
        let td_data = pool.allocate(data_pid, data.len, data.phys0, data.phys1, Some(td_status));
        let ghost d = td_data.index();
        proof {
            crate::usb_ehci::desc_pools::td_pool::lemma_free_upto_has_free(pool.alloced@, 128);
        }
        let td_setup = pool.allocate(Pid::Setup, setup.len, setup.phys0, setup.phys1, Some(td_data));
        proof {
            assert(td_setup.index() != d);
            assert(td_setup.index() != st);
        }
        td_setup
    } else {
        proof {
            crate::usb_ehci::desc_pools::td_pool::lemma_free_upto_has_free(pool.alloced@, 128);
        }
        let td_setup = pool.allocate(Pid::Setup, setup.len, setup.phys0, setup.phys1, Some(td_status));
        td_setup
    }
}

/// Descriptor `s` heads a chain that ends after at most two more
/// descriptors, all distinct and in use.
pub open spec fn short_chain(p: TdPool, s: int) -> bool {
    &&& 0 <= s < TD_COUNT
    &&& p.in_use(s)
    &&& p.next@[s] is Some
    &&& ({
        let d = p.next@[s]->0.index();
        &&& 0 <= d < TD_COUNT
        &&& d != s
        &&& p.in_use(d)
        &&& (p.next@[d] matches Some(h) ==> {
            let st = h.index();
            &&& 0 <= st < TD_COUNT
            &&& st != s && st != d
            &&& p.in_use(st)
            &&& p.next@[st] is None
        })
    })
}

/// Retire a finished control transfer: every descriptor of its chain is
/// released, and the length moved comes back: the buffer less what the data
/// stage left over (`token`, as the controller wrote it back).
pub fn finish_control(pool: &mut TdPool, setup: TdHandle, token: u32, buf_len: usize) -> (r: usize)
    requires
        old(pool).wf(),
        short_chain(*old(pool), setup.index()),
        (token >> 16u32) & 0x7FFF <= buf_len,
    ensures
        final(pool).wf(),
        final(pool).phys0 == old(pool).phys0,
        r == buf_len - ((token >> 16u32) & 0x7FFF),
        !final(pool).in_use(setup.index()),
        ({
            let d = old(pool).next@[setup.index()]->0.index();
            &&& !final(pool).in_use(d)
            &&& (old(pool).next@[d] matches Some(h) ==> !final(pool).in_use(h.index()))
            &&& forall|i: int| 0 <= i < TD_COUNT && i != setup.index() && i != d
                && !(old(pool).next@[d] matches Some(h) && h.index() == i) ==> final(pool).in_use(i) == old(pool).in_use(i)
                && final(pool).next@[i] == old(pool).next@[i]
        }),
        final(pool).data@ == old(pool).data@,
{
    let ghost p0 = *pool;
    let ghost s = setup.index();
    let td_data = match pool.release(setup) {
        Some(h) => h,
        None => {
            proof {
                assert(false);
            }
            return 0;
        },
    };
    let unused = TransferDesc::token_len(token);
    let ghost d = td_data.index();
    let ghost p1 = *pool;
    match pool.release(td_data) {
        Some(td_status) => {
            let ghost st = td_status.index();
            let ghost p2 = *pool;
            proof {
                assert(p1.in_use(st));
                assert(p2.in_use(st));
                assert(p2.next@[st] is None);
            }
            let rest = pool.release(td_status);
            proof {
                assert(rest is None);
            }
        },
        None => {},
    }
    buf_len - unused
}

/// The address a control transfer on device 0 assigns, when it is a
/// SET_ADDRESS request (request type 0, request 5; the address is the low
/// byte of the value, whose high byte must be zero).
pub fn set_address_target(dev_addr: u8, setup: &[u8]) -> (r: Option<u8>)
    requires
        dev_addr == 0 && setup@.len() >= 4 && setup@[0] == 0 && setup@[1] == 5 ==> setup@[3] == 0,
    ensures
        r == (if dev_addr == 0 && setup@.len() >= 4 && setup@[0] == 0 && setup@[1] == 5 { Some(setup@[2]) } else { None::<u8> }),
{
    if dev_addr == 0 && setup.len() >= 4 && setup[0] == 0 && setup[1] == 5 {
        Some(setup[2])
    } else {
        None
    }
}

/// Queue the single descriptor of a bulk transfer in the given direction.
pub fn queue_bulk(pool: &mut TdPool, dir_in: bool, data: BufferRange) -> (r: TdHandle)
    requires
        old(pool).wf(),
        old(pool).has_free(),
        data.len < 0x1000,
    ensures
        final(pool).wf(),
        final(pool).phys0 == old(pool).phys0,
        0 <= r.index() < TD_COUNT,
        !old(pool).in_use(r.index()),
        final(pool).in_use(r.index()),
        final(pool).next@[r.index()] is None,
        final(pool).data@[r.index()] == stage_td(if dir_in { Pid::In } else { Pid::Out }, data, 1),
        forall|i: int| 0 <= i < TD_COUNT && i != r.index() ==> final(pool).in_use(i) == old(pool).in_use(i)
            && final(pool).data@[i] == old(pool).data@[i] && final(pool).next@[i] == old(pool).next@[i],
        final(pool).free_count() + 1 == old(pool).free_count(),
{
    pool.allocate(if dir_in { Pid::In } else { Pid::Out }, data.len, data.phys0, data.phys1, None)
}

/// Retire a finished bulk transfer: its descriptor is released and the
/// length moved comes back (the buffer less what was left over).
pub fn finish_bulk(pool: &mut TdPool, td: TdHandle, token: u32, buf_len: usize) -> (r: usize)
    requires
        old(pool).wf(),
        td.index() < TD_COUNT,
        old(pool).in_use(td.index()),
        old(pool).next@[td.index()] is None,
        (token >> 16u32) & 0x7FFF <= buf_len,
    ensures
        final(pool).wf(),
        r == buf_len - ((token >> 16u32) & 0x7FFF),
        !final(pool).in_use(td.index()),
        forall|i: int| 0 <= i < TD_COUNT && i != td.index() ==> final(pool).in_use(i) == old(pool).in_use(i),
        final(pool).data@ == old(pool).data@,
        final(pool).next@ == old(pool).next@,
        final(pool).phys0 == old(pool).phys0,
        final(pool).free_count() == old(pool).free_count() + 1,
{
    // the handle's index is in range (its type invariant)
    let _idx: usize = td.idx();
    let rest = pool.release(td);
    proof {
        assert(rest is None);
        assert(pool.next@ =~= old(pool).next@);
    }
    buf_len - TransferDesc::token_len(token)
}

/// A control transfer as queued is a chain that its completion can retire.
pub proof fn lemma_control_chain_is_short(p: TdPool, s: int, dir_in: bool, setup: BufferRange, data: BufferRange)
    requires
        control_chain(p, s, dir_in, setup, data),
    ensures
        short_chain(p, s),
{
}

} // verus!
