//! Open Host Controller Interface (OHCI): the communication page layout,
//! descriptor identifiers, the interrupt tree, root-hub ports and the
//! interrupt buffer pool.
use vstd::prelude::*;
use crate::usb_core::hub::PortFeature;
use crate::usb_core::host::EndpointAddr;
use crate::usb_ohci::hw::{Regs, reg_index};

pub mod hw;
pub mod int_buffers;
pub mod pools;
pub mod transfers;

verus! {

/// Longest interrupt polling period, in milliseconds.
pub const MAX_INT_PERIOD_MS: usize = 16;

/// Handle to an endpoint descriptor (group 0 is the communication page).
#[derive(Copy, Clone, Debug, PartialEq, Eq, Structural)]
pub struct EndpointId {
    pub group: u8,
    pub idx: u8,
}

/// Index into a pool of transfer descriptors (group 0 is the tail of the
/// communication page).
#[derive(Copy, Clone, Debug, PartialEq, Eq, Structural)]
pub struct TransferDescriptorId {
    pub group: u8,
    pub idx: u8,
}

impl TransferDescriptorId {
    pub open spec fn from_u16_spec(v: u16) -> TransferDescriptorId {
        TransferDescriptorId { group: (v >> 8u16) as u8, idx: (v & 0xFF) as u8 }
    }

    /// Unpack from the group (high byte) and index (low byte).
    pub fn from_u16(v: u16) -> (r: TransferDescriptorId)
        ensures
            r == Self::from_u16_spec(v),
    {
        TransferDescriptorId { group: (v >> 8) as u8, idx: (v & 0xFF) as u8 }
    }

    pub open spec fn to_u16_spec(self) -> u16 {
        ((self.group as u16) << 8u16) | (self.idx as u16)
    }

    /// Pack as group (high byte) and index (low byte).
    pub fn to_u16(self) -> (r: u16)
        ensures
            r == self.to_u16_spec(),
    {
        ((self.group as u16) << 8) | (self.idx as u16)
    }

    /// The placeholder identifier (group 0, index 0).
    pub fn null() -> (r: TransferDescriptorId)
        ensures
            r.group == 0 && r.idx == 0,
    {
        TransferDescriptorId { group: 0, idx: 0 }
    }
}

/// Packing an identifier and unpacking it again gives it back, and the
/// other way round.
pub proof fn lemma_td_id_roundtrip(id: TransferDescriptorId, v: u16)
    ensures
        TransferDescriptorId::from_u16_spec(id.to_u16_spec()) == id,
        TransferDescriptorId::from_u16_spec(v).to_u16_spec() == v,
{
    let g = id.group;
    let i = id.idx;
    assert((((((g as u16) << 8u16) | (i as u16)) >> 8u16) as u8) == g && (((((g as u16) << 8u16)
        | (i as u16)) & 0xFF) as u8) == i && ((((v >> 8u16) as u8) as u16) << 8u16) | (((v & 0xFF) as u8) as u16) == v)
        by (bit_vector);
}

/// The interrupt slot fed by slot `cur` (the list it links to): each level
/// of the tree halves the number of lists; slot 30 (1 ms) feeds 31, the end.
pub open spec fn upstream_next(cur: int) -> int {
    if cur < 16 {
        16 + cur / 2
    } else if cur < 24 {
        24 + (cur - 16) / 2
    } else if cur < 28 {
        28 + (cur - 24) / 2
    } else if cur < 30 {
        30 + (cur - 28) / 2
    } else {
        31
    }
}

/// Iterator over the slots whose loading grows when an endpoint is added to
/// a slot: the slot itself and every one downstream of it.
pub struct UpstreamIntSlots(pub usize);

impl UpstreamIntSlots {
    /// The next slot, or `None` past the 1 ms slot.
    pub fn next(&mut self) -> (r: Option<usize>)
        requires
            old(self).0 <= 31,
        ensures
            old(self).0 == 31 ==> r is None && final(self).0 == 31,
            old(self).0 < 31 ==> r == Some(old(self).0) && final(self).0 == upstream_next(old(self).0 as int),
            final(self).0 <= 31,
    {
        if self.0 == MAX_INT_PERIOD_MS * 2 - 1 {
            return None;
        }
        let cur = self.0;
        let mut base: usize = 0;
        let mut size: usize = MAX_INT_PERIOD_MS;
        let mut found = false;
        while size > 1 && !found
            invariant
                cur < 31,
                found ==> self.0 == upstream_next(cur as int),
                !found ==> self.0 == cur && cur >= base,
                (size == 16 && base == 0) || (size == 8 && base == 16) || (size == 4 && base == 24)
                    || (size == 2 && base == 28) || (size == 1 && base == 30),
            decreases size + (if found { 0int } else { 1int }),
        {
            if cur - base < size {
                self.0 = base + size + (self.0 - base) / 2;
                found = true;
            } else {
                base += size;
                size /= 2;
            }
        }
        if !found {
            self.0 = MAX_INT_PERIOD_MS * 2 - 1;
        }
        Some(cur)
    }
}

/// Slot `k` lies on the path from slot `from` towards the 1 ms slot (the
/// end, slot 31, excluded).
pub open spec fn on_upstream_path(from: int, k: int) -> bool
    decreases 31 - from,
{
    if from < 0 || from >= 31 {
        false
    } else {
        k == from || on_upstream_path(upstream_next(from), k)
    }
}

proof fn lemma_path_ascends(from: int, k: int)
    requires
        on_upstream_path(from, k),
    ensures
        from <= k < 31,
    decreases 31 - from,
{
    if k != from {
        lemma_path_ascends(upstream_next(from), k);
    }
}

proof fn lemma_path_trans(a: int, b: int, c: int)
    requires
        on_upstream_path(a, b),
        on_upstream_path(b, c),
    ensures
        on_upstream_path(a, c),
    decreases 31 - a,
{
    if a != b {
        lemma_path_trans(upstream_next(a), b, c);
    }
}

proof fn lemma_path_no_gap(slot: int, cur: int, k: int)
    requires
        on_upstream_path(slot, cur),
        on_upstream_path(slot, k),
        cur < k,
    ensures
        upstream_next(cur) <= k,
    decreases 31 - slot,
{
    if slot == cur {
        lemma_path_ascends(upstream_next(slot), k);
    } else {
        lemma_path_ascends(upstream_next(slot), cur);
        lemma_path_no_gap(upstream_next(slot), cur, k);
    }
}

/// Count an endpoint added to slot `slot` in the loading of that slot and
/// of every slot downstream of it.
pub fn add_loading(loading: &mut Vec<usize>, slot: usize)
    requires
        old(loading)@.len() >= 31,
        slot <= 31,
        forall|k: int| 0 <= k < 31 ==> old(loading)@[k] < usize::MAX,
    ensures
        final(loading)@.len() == old(loading)@.len(),
        forall|k: int| 0 <= k < old(loading)@.len() ==> #[trigger] final(loading)@[k] == old(loading)@[k] + (
            if on_upstream_path(slot as int, k) { 1int } else { 0int }),
{
    let mut it = UpstreamIntSlots(slot);
    assert forall|k: int| 0 <= k < loading@.len() implies #[trigger] loading@[k] == old(loading)@[k] + (
        if on_upstream_path(slot as int, k) && k < slot { 1int } else { 0int }) by {
        if on_upstream_path(slot as int, k) {
            lemma_path_ascends(slot as int, k);
        }
    }
    loop
        invariant
            loading@.len() == old(loading)@.len() >= 31,
            it.0 <= 31,
            it.0 == 31 || on_upstream_path(slot as int, it.0 as int),
            slot as int <= it.0,
            forall|k: int| 0 <= k < 31 ==> old(loading)@[k] < usize::MAX,
            forall|k: int| 0 <= k < loading@.len() ==> #[trigger] loading@[k] == old(loading)@[k] + (
                if on_upstream_path(slot as int, k) && k < it.0 { 1int } else { 0int }),
        ensures
            forall|k: int| 0 <= k < loading@.len() ==> #[trigger] loading@[k] == old(loading)@[k] + (
                if on_upstream_path(slot as int, k) { 1int } else { 0int }),
        decreases 31 - it.0,
    {
        let cur = it.0;
        match it.next() {
            None => {
                assert forall|k: int| 0 <= k < loading@.len() implies #[trigger] loading@[k] == old(loading)@[k] + (
                    if on_upstream_path(slot as int, k) { 1int } else { 0int }) by {
                    if on_upstream_path(slot as int, k) {
                        lemma_path_ascends(slot as int, k);
                    }
                }
                break;
            },
            Some(i) => {
                proof {
                    if slot as int == cur as int {
                    } else {
                        lemma_path_ascends(slot as int, cur as int);
                    }
                }
                let v = loading[i];
                loading.set(i, v + 1);
                proof {
                    let nx = upstream_next(cur as int);
                    if nx < 31 {
                        assert(on_upstream_path(nx, nx));
                        assert(on_upstream_path(cur as int, nx));
                        lemma_path_trans(slot as int, cur as int, nx);
                    }
                    assert forall|k: int| 0 <= k < loading@.len() implies #[trigger] loading@[k] == old(loading)@[k] + (
                        if on_upstream_path(slot as int, k) && k < it.0 { 1int } else { 0int }) by {
                        if on_upstream_path(slot as int, k) && cur < k {
                            lemma_path_no_gap(slot as int, cur as int, k);
                        }
                    }
                }
            },
        }
    }
}

/// Slot range (first slot, count) of an interrupt period of `2^p` ms
/// (anything past 16 ms uses the 16 ms lists).
pub open spec fn interrupt_slot_range_spec(period_pow_2: usize) -> (usize, usize) {
    if period_pow_2 == 4 {
        (0, 16)
    } else if period_pow_2 == 3 {
        (16, 8)
    } else if period_pow_2 == 2 {
        (24, 4)
    } else if period_pow_2 == 1 {
        (28, 2)
    } else if period_pow_2 == 0 {
        (30, 1)
    } else {
        (0, 16)
    }
}

pub fn interrupt_slot_range(period_pow_2: usize) -> (r: (usize, usize))
    ensures
        r == interrupt_slot_range_spec(period_pow_2),
{
    match period_pow_2 {
        4 => (0, 16),
        3 => (16, 8),
        2 => (24, 4),
        1 => (28, 2),
        0 => (30, 1),
        _ => (0, 16),
    }
}

/// The slot in `start .. start + len` with the lowest loading (the first
/// such on ties), as an offset from `start`.
pub fn min_load_slot(loading: &[usize], start: usize, len: usize) -> (r: usize)
    requires
        len >= 1,
        start + len <= loading@.len(),
    ensures
        r < len,
        forall|k: int| start <= k < start + len ==> loading@[start + r] <= #[trigger] loading@[k],
        forall|k: int| start <= k < start + r ==> loading@[start + r] < #[trigger] loading@[k],
{
    let mut best: usize = 0;
    let mut i: usize = 1;
    while i < len
        invariant
            1 <= i <= len,
            start + len <= loading.len(),
            best < i,
            forall|k: int| start <= k < start + i ==> loading@[start + best] <= #[trigger] loading@[k],
            forall|k: int| start <= k < start + best ==> loading@[start + best] < #[trigger] loading@[k],
        decreases len - i,
    {
        if loading[start + i] < loading[start + best] {
            best = i;
        }
        i += 1;
    }
    best
}

/// Interrupt period exponent for a polling period: floor(log2), 0 for 0 ms.
pub fn period_pow_2(period_ms: u32) -> (r: u32)
    ensures
        period_ms == 0 ==> r == 0,
        period_ms != 0 ==> r == 31 - vstd::std_specs::bits::u32_leading_zeros(period_ms),
{
    if period_ms == 0 {
        0
    } else {
        let lz = period_ms.leading_zeros();
        proof {
            vstd::std_specs::bits::axiom_u32_leading_zeros(period_ms);
        }
        31 - lz
    }
}

/// Level (first slot, count) of interrupt endpoint `e` in the tree.
pub open spec fn int_level(e: int) -> (int, int) {
    if e < 16 {
        (0, 16)
    } else if e < 24 {
        (16, 8)
    } else if e < 28 {
        (24, 4)
    } else if e < 30 {
        (28, 2)
    } else {
        (30, 1)
    }
}

/// Link of interrupt endpoint `e` (below 31): the endpoint of the next
/// level that this list feeds into.
pub open spec fn int_next_ed(page_phys: u32, e: int) -> int {
    let (s, c) = int_level(e);
    page_phys + 256 + 16 * (s + c) + 16 * ((e - s) / 2)
}

/// Interrupt list of frame `k` of the 32-entry interrupt table: the 16 ms
/// lists in bit-reversed order, twice.
pub open spec fn int_table_index(k: int) -> int {
    seq![0int, 8, 4, 12, 2, 10, 6, 14, 1, 9, 5, 13, 3, 11, 7, 15][k % 16]
}

/// Each interrupt list links to the slot that the load accounting treats
/// as its upstream slot.
pub proof fn lemma_int_tree_matches_upstream(page_phys: u32, e: int)
    requires
        0 <= e < 31,
    ensures
        int_next_ed(page_phys, e) == page_phys + 256 + 16 * upstream_next(e),
{
}

/// Interrupt endpoint `e` of the page words is skipped and linked to the
/// next level.
pub open spec fn int_ed_ok(page: Seq<u32>, page_phys: u32, e: int) -> bool {
    page[64 + 4 * e] == 0x4000 && page[64 + 4 * e + 3] == int_next_ed(page_phys, e)
}

/// Physical address of the endpoint that ends every interrupt list.
pub open spec fn stop_endpoint_phys(page_phys: u32) -> int {
    page_phys + 256 + 16 * 31
}

/// The communication page as 32-bit words: the interrupt table, a zero
/// frame number and done head, then the interrupt tree (each endpoint
/// skipped, linked to the next level) and the endpoint that ends it.
pub fn init_comm_page(page_phys: u32) -> (r: Vec<u32>)
    requires
        page_phys + 0x1000 <= u32::MAX,
    ensures
        r@.len() == 1024,
        forall|k: int| 0 <= k < 32 ==> r@[k] == page_phys + 256 + 16 * int_table_index(k),
        r@[32] == 0,
        r@[33] == 0,
        forall|e: int| 0 <= e < 31 ==> #[trigger] int_ed_ok(r@, page_phys, e),
        r@[188int] == 0x4000,
        r@[191int] == 0,
        forall|k: int| 34 <= k < 1024 && !(64 <= k < 192 && (k % 4 == 0 || k % 4 == 3)) ==> #[trigger] r@[k] == 0,
{
    let mut page: Vec<u32> = Vec::new();
    let mut i: usize = 0;
    while i < 1024
        invariant
            i <= 1024,
            page@.len() == i,
            forall|k: int| 0 <= k < i ==> page@[k] == 0,
        decreases 1024 - i,
    {
        page.push(0);
        i += 1;
    }
    let int_indexes: [u32; 16] = [0, 8, 4, 12, 2, 10, 6, 14, 1, 9, 5, 13, 3, 11, 7, 15];
    let int_base = page_phys + 256;
    let mut k: usize = 0;
    while k < 32
        invariant
            k <= 32,
            page@.len() == 1024,
            page_phys + 0x1000 <= u32::MAX,
            int_base == page_phys + 256,
            int_indexes@ == seq![0u32, 8, 4, 12, 2, 10, 6, 14, 1, 9, 5, 13, 3, 11, 7, 15],
            forall|j: int| 0 <= j < k ==> page@[j] == page_phys + 256 + 16 * int_table_index(j),
            forall|j: int| 32 <= j < 1024 ==> page@[j] == 0,
        decreases 32 - k,
    {
        let idx = int_indexes[k % 16];
        assert(int_table_index(k as int) == idx);
        page.set(k, int_base + idx * 16);
        k += 1;
    }
    let mut e: usize = 0;
    while e < 31
        invariant
            e <= 31,
            page@.len() == 1024,
            page_phys + 0x1000 <= u32::MAX,
            forall|j: int| 0 <= j < 32 ==> page@[j] == page_phys + 256 + 16 * int_table_index(j),
            page@[32] == 0,
            page@[33] == 0,
            forall|j: int| 0 <= j < e ==> #[trigger] int_ed_ok(page@, page_phys, j),
            page@[188int] == 0,
            page@[191int] == 0,
            forall|j: int| 34 <= j < 1024 && !(64 <= j < 64 + 4 * e && (j % 4 == 0 || j % 4 == 3)) ==> #[trigger] page@[j] == 0,
        decreases 31 - e,
    {
        let (s, c): (usize, usize) = if e < 16 { (0, 16) } else if e < 24 { (16, 8) } else if e < 28 { (24, 4) } else if e < 30 { (28, 2) } else { (30, 1) };
        let next = page_phys + 256 + 16 * (s + c) as u32 + 16 * ((e - s) / 2) as u32;
        assert(next == int_next_ed(page_phys, e as int));
        let ghost p0 = page@;
        page.set(64 + 4 * e, 0x4000);
        page.set(64 + 4 * e + 3, next);
        proof {
            assert forall|j: int| 0 <= j < e + 1 implies #[trigger] int_ed_ok(page@, page_phys, j) by {
                if j < e {
                    assert(int_ed_ok(p0, page_phys, j));
                }
            }
        }
        e += 1;
    }
    let ghost p1 = page@;
    page.set(64 + 4 * 31, 0x4000);
    page.set(64 + 4 * 31 + 3, 0);
    proof {
        assert forall|j: int| 0 <= j < 31 implies #[trigger] int_ed_ok(page@, page_phys, j) by {
            assert(int_ed_ok(p1, page_phys, j));
        }
    }
    page
}

/// Who owns the controller when the driver starts, from HcControl.
#[derive(Copy, Clone, Debug, PartialEq, Eq, Structural)]
pub enum ControllerState {
    /// System management mode firmware owns it (InterruptRouting set)
    SmmOwned,
    /// The bus is in UsbReset
    Reset,
    /// The bus is operational
    Operational,
    /// The bus is suspended or resuming
    SuspendOrResume,
}

pub fn controller_state(hc_control: u32) -> (r: ControllerState)
    ensures
        hc_control & 0x100 != 0 ==> r == ControllerState::SmmOwned,
        hc_control & 0x100 == 0 && hc_control & 0xC0 == 0 ==> r == ControllerState::Reset,
        hc_control & 0x100 == 0 && hc_control & 0xC0 == 0x80 ==> r == ControllerState::Operational,
        hc_control & 0x100 == 0 && hc_control & 0xC0 != 0 && hc_control & 0xC0 != 0x80 ==> r
            == ControllerState::SuspendOrResume,
{
    if hc_control & 0x100 != 0 {
        ControllerState::SmmOwned
    } else if hc_control & 0xC0 == 0 {
        ControllerState::Reset
    } else if hc_control & 0xC0 == 0x80 {
        ControllerState::Operational
    } else {
        ControllerState::SuspendOrResume
    }
}

/// Periodic start: 90% of the frame interval (bits 13:0 of HcFmInterval).
pub fn periodic_start(fm_interval: u32) -> (r: u32)
    ensures
        r == (fm_interval & 0x3FFF) * 9 / 10,
{
    let frame_interval = fm_interval & 0x3FFF;
    proof {
        crate::bits::lemma_u32_and_le(fm_interval, 0x3FFF);
    }
    frame_interval * 9 / 10
}

/// Interrupts enabled at start-up: the master enable and every source but
/// ownership change and start of frame (the rest of the mask is disabled).
pub fn interrupt_enable_masks() -> (r: (u32, u32))
    ensures
        r == (0x8000_007Bu32 & 0xC000_007Fu32, !0x8000_007Bu32 & 0xC000_007Fu32),
{
    let mask: u32 = 0xC000_007F;
    let ints: u32 = 0x8000_007B;
    (ints & mask, (!ints) & mask)
}

/// Number of root-hub ports (HcRhDescriptorA bits 7:0); more than 15 is
/// not supported.
pub fn root_hub_ports(rh_descriptor_a: u32) -> (r: Option<u8>)
    ensures
        rh_descriptor_a & 0xFF <= 15 ==> r == Some((rh_descriptor_a & 0xFF) as u8),
        rh_descriptor_a & 0xFF > 15 ==> r is None,
{
    let n = rh_descriptor_a & 0xFF;
    if n <= 15 {
        Some(n as u8)
    } else {
        None
    }
}

/// The root-hub status register of port `port`.
pub fn get_port_reg(port: usize, nports: u8) -> (r: Regs)
    requires
        port < 16,
        port < nports,
    ensures
        reg_index(r) == 21 + port,
{
    Regs::from_index(21 + port)
}

/// Mask of the ports whose status word has a change bit (31:16) set.
pub fn root_hub_change_mask(port_status: &[u32]) -> (r: u32)
    requires
        port_status@.len() <= 16,
    ensures
        forall|i: u32|
            #![trigger r & (1u32 << i)]
            #![trigger port_status@[i as int]]
            i < port_status@.len() ==> (r & (1u32 << i) != 0 <==> port_status@[i as int] & 0xFFFF_0000u32 != 0),
        forall|i: u32| #![trigger r & (1u32 << i)] port_status@.len() <= i < 32 ==> r & (1u32 << i) == 0,
{
    let mut mask: u32 = 0;
    let mut i: usize = 0;
    assert forall|j: u32| j < 32 implies #[trigger] (0u32 & (1u32 << j)) == 0 by {
        crate::bits::lemma_u32_bit_test(0, j);
    }
    while i < port_status.len()
        invariant
            i <= port_status@.len() <= 16,
            forall|j: u32| j < i ==> (mask & (1u32 << j) != 0 <==> port_status@[j as int] & 0xFFFF_0000u32 != 0),
            forall|j: u32| i <= j < 32 ==> #[trigger] (mask & (1u32 << j)) == 0,
        decreases port_status@.len() - i,
    {
        let v = port_status[i];
        let b = i as u32;
        if v & 0xFFFF_0000 != 0 {
            let m0 = mask;
            mask = mask | (1u32 << b);
            assert forall|j: u32| j < 32 implies (#[trigger] ((m0 | (1u32 << b)) & (1u32 << j)) != 0) == (j == b || m0 & (1u32 << j) != 0) by {
                lemma_or_bit(m0, b, j);
            }
        }
        i += 1;
    }
    mask
}

/// Fold a root-hub status change into the ports waiting to be looked at:
/// the ports already pending stay pending, every port whose status word has
/// a change bit is added, and the root-hub waiter is to be woken when any
/// port is pending.
pub fn root_hub_update(port_update: u32, port_status: &[u32]) -> (r: (u32, bool))
    requires
        port_status@.len() <= 16,
    ensures
        forall|i: u32|
            #![trigger r.0 & (1u32 << i)]
            #![trigger port_update & (1u32 << i)]
            #![trigger port_status@[i as int]]
            i < port_status@.len() ==> (r.0 & (1u32 << i) != 0 <==> (port_update & (1u32 << i) != 0
            || port_status@[i as int] & 0xFFFF_0000u32 != 0)),
        forall|i: u32|
            #![trigger r.0 & (1u32 << i)]
            #![trigger port_update & (1u32 << i)]
            port_status@.len() <= i < 32 ==> (r.0 & (1u32 << i) != 0 <==> port_update & (1u32 << i) != 0),
        r.1 == (r.0 != 0),
{
    let mask = root_hub_change_mask(port_status);
    let v = port_update | mask;
    proof {
        assert forall|i: u32| i < 32 implies ((port_update | mask) & (1u32 << i) != 0) == (port_update & (1u32 << i) != 0
            || mask & (1u32 << i) != 0) by {
            crate::bits::lemma_u32_or_bit(port_update, mask, i);
        }
    }
    (v, v != 0)
}

/// Mask of the ports with a device connected (current connect status, bit 0
/// of the port status word): the ports to look at once the controller is up.
pub fn connected_port_mask(port_status: &[u32]) -> (r: u32)
    requires
        port_status@.len() <= 16,
    ensures
        forall|i: u32|
            #![trigger r & (1u32 << i)]
            #![trigger port_status@[i as int]]
            i < port_status@.len() ==> (r & (1u32 << i) != 0 <==> port_status@[i as int] & 1u32 != 0),
        forall|i: u32| #![trigger r & (1u32 << i)] port_status@.len() <= i < 32 ==> r & (1u32 << i) == 0,
{
    let mut mask: u32 = 0;
    let mut i: usize = 0;
    assert forall|j: u32| j < 32 implies #[trigger] (0u32 & (1u32 << j)) == 0 by {
        crate::bits::lemma_u32_bit_test(0, j);
    }
    while i < port_status.len()
        invariant
            i <= port_status@.len() <= 16,
            forall|j: u32| j < i ==> (mask & (1u32 << j) != 0 <==> port_status@[j as int] & 1u32 != 0),
            forall|j: u32| i <= j < 32 ==> #[trigger] (mask & (1u32 << j)) == 0,
        decreases port_status@.len() - i,
    {
        let v = port_status[i];
        let b = i as u32;
        if v & 1 != 0 {
            let m0 = mask;
            mask = mask | (1u32 << b);
            assert forall|j: u32| j < 32 implies (#[trigger] ((m0 | (1u32 << b)) & (1u32 << j)) != 0) == (j == b || m0 & (1u32 << j) != 0) by {
                lemma_or_bit(m0, b, j);
            }
        }
        i += 1;
    }
    mask
}

proof fn lemma_or_bit(x: u32, b: u32, c: u32)
    requires
        b < 32,
        c < 32,
    ensures
        ((x | (1u32 << b)) & (1u32 << c) != 0) == (b == c || x & (1u32 << c) != 0),
{
    crate::bits::lemma_u32_set_bit(x, b, c);
}

/// Byte offset in the communication page of an endpoint descriptor of
/// group 0 (the general pool lies between the interrupt tree and the
/// transfer descriptors).
pub fn ed_offset(id: &EndpointId) -> (r: usize)
    requires
        id.group == 0,
        256 <= 16 * id.idx < 2048,
    ensures
        r == 16 * id.idx,
{
    id.idx as usize * 16
}

/// Byte offset in the communication page of a transfer descriptor of group 0.
pub fn general_td_offset(id: &TransferDescriptorId) -> (r: usize)
    requires
        id.group == 0,
        2048 <= 32 * id.idx < 4096,
    ensures
        r == 32 * id.idx,
{
    id.idx as usize * 32
}

/// The transfer descriptor at a physical address in the communication page.
pub fn get_general_td_from_phys(addr: u32, hcca_page: u32) -> (r: Option<TransferDescriptorId>)
    requires
        hcca_page & 0xFFF == 0,
        addr & !0xFFFu32 == hcca_page ==> (addr - hcca_page) % 32 == 0,
    ensures
        addr & !0xFFFu32 == hcca_page ==> r == Some(TransferDescriptorId { group: 0, idx: ((addr - hcca_page) / 32) as u8 }),
        addr & !0xFFFu32 != hcca_page ==> r is None,
{
    if addr & !0xFFF == hcca_page {
        assert(addr & !0xFFFu32 <= addr && addr - (addr & !0xFFFu32) < 0x1000) by (bit_vector);
        let ofs = addr - hcca_page;
        Some(TransferDescriptorId { group: 0, idx: (ofs / 32) as u8 })
    } else {
        None
    }
}

/// Port status value to write to set a feature (`None`: not supported).
pub open spec fn set_feature_value(feature: PortFeature) -> Option<u32> {
    match feature {
        PortFeature::Enable => Some(0x0002u32),
        PortFeature::Suspend => Some(0x0004u32),
        PortFeature::Reset => Some(0x0010u32),
        PortFeature::Power => Some(0x0100u32),
        _ => None,
    }
}

/// Port status value to write to clear a feature (`None`: not supported).
pub open spec fn clear_feature_value(feature: PortFeature) -> Option<u32> {
    match feature {
        PortFeature::Enable => Some(0x0001u32),
        PortFeature::Suspend => Some(0x0008u32),
        PortFeature::Power => Some(0x0200u32),
        PortFeature::CConnection => Some(0x01_0000u32),
        PortFeature::CEnable => Some(0x02_0000u32),
        PortFeature::CSuspend => Some(0x04_0000u32),
        PortFeature::COverCurrent => Some(0x08_0000u32),
        PortFeature::CReset => Some(0x10_0000u32),
        _ => None,
    }
}

/// Port status bit of a feature (`None`: not reported).
pub open spec fn get_feature_mask(feature: PortFeature) -> Option<u32> {
    match feature {
        PortFeature::Connection => Some(0x0001u32),
        PortFeature::Enable => Some(0x0002u32),
        PortFeature::Suspend => Some(0x0004u32),
        PortFeature::OverCurrent => Some(0x0008u32),
        PortFeature::Reset => Some(0x0010u32),
        PortFeature::Power => Some(0x0100u32),
        PortFeature::LowSpeed => Some(0x0200u32),
        PortFeature::CConnection => Some(0x01_0000u32),
        PortFeature::CEnable => Some(0x02_0000u32),
        PortFeature::CSuspend => Some(0x04_0000u32),
        PortFeature::COverCurrent => Some(0x08_0000u32),
        PortFeature::CReset => Some(0x10_0000u32),
        PortFeature::Test => None,
        PortFeature::Indicator => None,
    }
}

/// The root-hub port status register keeps each feature at the bit the
/// USB hub port status word has it (its selector), so reading a feature
/// reads the same bit a hub would report; a feature is set by writing its
/// own bit, and a change feature is cleared by writing its own bit.
pub proof fn lemma_root_port_bits(v: u32, f: PortFeature)
    ensures
        f != PortFeature::Test && f != PortFeature::Indicator ==> (match get_feature_mask(f) {
            Some(m) => v & m != 0,
            None => false,
        }) == crate::usb_core::hub::status_has(v, f),
        set_feature_value(f) matches Some(m) ==> v & m == v & (1u32 << (crate::usb_core::hub::feature_selector(f) as u32)),
        (f == PortFeature::CConnection || f == PortFeature::CEnable || f == PortFeature::CSuspend
            || f == PortFeature::COverCurrent || f == PortFeature::CReset) ==> (clear_feature_value(f) matches Some(m)
            && v & m == v & (1u32 << (crate::usb_core::hub::feature_selector(f) as u32))),
{
    crate::usb_core::hub::lemma_port_status_masks(v);
}

/// Value written to set a port feature.
pub fn set_port_feature_value(feature: PortFeature) -> (r: Option<u32>)
    ensures
        r == set_feature_value(feature),
{
    match feature {
        PortFeature::Enable => Some(0x0002),
        PortFeature::Suspend => Some(0x0004),
        PortFeature::Reset => Some(0x0010),
        PortFeature::Power => Some(0x0100),
        _ => None,
    }
}

/// Value written to clear a port feature.
pub fn clear_port_feature_value(feature: PortFeature) -> (r: Option<u32>)
    ensures
        r == clear_feature_value(feature),
{
    match feature {
        PortFeature::Enable => Some(0x0001),
        PortFeature::Suspend => Some(0x0008),
        PortFeature::Power => Some(0x0200),
        PortFeature::CConnection => Some(0x01_0000),
        PortFeature::CEnable => Some(0x02_0000),
        PortFeature::CSuspend => Some(0x04_0000),
        PortFeature::COverCurrent => Some(0x08_0000),
        PortFeature::CReset => Some(0x10_0000),
        _ => None,
    }
}

/// Whether a port feature is set in a port status value.
pub fn get_port_feature_value(v: u32, feature: PortFeature) -> (r: bool)
    ensures
        r == match get_feature_mask(feature) {
            Some(m) => v & m != 0,
            None => false,
        },
{
    let mask: u32 = match feature {
        PortFeature::Connection => 0x0001,
        PortFeature::Enable => 0x0002,
        PortFeature::Suspend => 0x0004,
        PortFeature::OverCurrent => 0x0008,
        PortFeature::Reset => 0x0010,
        PortFeature::Power => 0x0100,
        PortFeature::LowSpeed => 0x0200,
        PortFeature::CConnection => 0x01_0000,
        PortFeature::CEnable => 0x02_0000,
        PortFeature::CSuspend => 0x04_0000,
        PortFeature::COverCurrent => 0x08_0000,
        PortFeature::CReset => 0x10_0000,
        PortFeature::Test => {
            return false;
        },
        PortFeature::Indicator => {
            return false;
        },
    };
    v & mask != 0
}

/// Endpoint descriptor flags: address, endpoint number, direction
/// (0 = from the TD, 1 = OUT, 2 = IN) and max packet size.
pub open spec fn ed_flags(dev_addr: u8, endpt: u8, direction: u32, max_packet_size: usize) -> u32 {
    ((dev_addr as u32) & 0x7F) | (((endpt as u32) & 0xF) << 7u32) | (direction << 11u32) | (((max_packet_size as u32)
        & 0xFFFF) << 16u32)
}

/// Flags of a control endpoint descriptor (direction taken from each TD).
pub fn control_ed_flags(endpoint: &EndpointAddr, max_packet_size: usize) -> (r: u32)
    ensures
        r == ed_flags(endpoint.dev_addr_spec(), endpoint.endpt_spec(), 0, max_packet_size),
{
    ((endpoint.dev_addr() as u32) & 0x7F) | (((endpoint.endpt() as u32) & 0xF) << 7) | (0u32 << 11) | (((
    max_packet_size as u32) & 0xFFFF) << 16)
}

/// Flags of a bulk endpoint descriptor (IN or OUT).
pub fn bulk_ed_flags(endpoint: &EndpointAddr, max_packet_size: usize, dir_in: bool) -> (r: u32)
    ensures
        r == ed_flags(endpoint.dev_addr_spec(), endpoint.endpt_spec(), if dir_in { 2 } else { 1 }, max_packet_size),
{
    let dir: u32 = if dir_in { 2 } else { 1 };
    ((endpoint.dev_addr() as u32) & 0x7F) | (((endpoint.endpt() as u32) & 0xF) << 7) | (dir << 11) | (((
    max_packet_size as u32) & 0xFFFF) << 16)
}

/// Flags of an interrupt endpoint descriptor (no packet size given).
pub fn interrupt_ed_flags(endpoint: &EndpointAddr) -> (r: u32)
    ensures
        r == ed_flags(endpoint.dev_addr_spec(), endpoint.endpt_spec(), 0, 0),
{
    ((endpoint.dev_addr() as u32) & 0x7F) | (((endpoint.endpt() as u32) & 0xF) << 7) | (0u32 << 11) | ((0u32
        & 0xFFFF) << 16)
}

/// A buffer can be handed to the controller as is: its first and last
/// bytes have 32-bit addresses, and it stays in one page or runs straight
/// on into the next. `None` means it would need a bounce buffer.
pub open spec fn dma_range_ok(start_phys: u64, last_phys: u64, len: usize) -> bool {
    &&& start_phys <= u32::MAX
    &&& last_phys <= u32::MAX
    &&& !((start_phys as u32) & !0xFFFu32 != (last_phys as u32) & !0xFFFu32
        && dma_tail(start_phys as u32, last_phys as u32) != len)
}

/// Where the buffer would end in the second page, computed from the room
/// left in the first page and the last byte's address (the test the driver
/// applies to a buffer that crosses a page boundary).
pub open spec fn dma_tail(s: u32, l: u32) -> int {
    ((0x1000 - (s & 0xFFFu32) + l) as u32 & 0xFFFu32) as int
}

/// The addresses to give the controller for a buffer (an empty buffer gives zeros).
pub fn dma_range(start_phys: u64, last_phys: u64, len: usize) -> (r: Option<(u32, u32)>)
    requires
        (start_phys <= u32::MAX && last_phys <= u32::MAX && (start_phys as u32) & !0xFFFu32 != (last_phys
            as u32) & !0xFFFu32) ==> 0x1000 - ((start_phys as u32) & 0xFFFu32) + last_phys <= u32::MAX,
    ensures
        len == 0 ==> r == Some((0u32, 0u32)),
        len != 0 && dma_range_ok(start_phys, last_phys, len) ==> r == Some((start_phys as u32, last_phys as u32)),
        len != 0 && !dma_range_ok(start_phys, last_phys, len) ==> r is None,
{
    if len == 0 {
        return Some((0, 0));
    }
    if start_phys > u32::MAX as u64 || last_phys > u32::MAX as u64 {
        return None;
    }
    let s = start_phys as u32;
    let l = last_phys as u32;
    if s & !0xFFF != l & !0xFFF {
        proof {
            crate::bits::lemma_u32_and_le(s, 0xFFF);
        }
        let tail = (0x1000u32 - (s & 0xFFF) + l) & 0xFFF;
        if tail as usize != len {
            return None;
        }
    }
    Some((s, l))
}

/// Bytes read by a control IN transfer from the data stage's remainder:
/// the whole buffer when nothing at all was transferred (the controller
/// leaves the count untouched), else the buffer less the remainder.
pub fn control_in_len(remaining: usize, len: usize) -> (r: usize)
    requires
        remaining <= len,
    ensures
        remaining == len ==> r == len,
        remaining != len ==> r == len - remaining,
{
    if remaining == len {
        len
    } else {
        len - remaining
    }
}

/// Bytes moved by a bulk transfer of `len` bytes with `remaining` left over.
pub fn bulk_transfer_len(len: u16, remaining: usize) -> (r: usize)
    requires
        remaining <= len,
    ensures
        r == len - remaining,
{
    len as usize - remaining
}

} // verus!
