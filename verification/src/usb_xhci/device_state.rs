//! Per-device state: the enumeration route of the next device, the claimed
//! endpoints of each device, and the position of each transfer ring.
use vstd::prelude::*;
use vstd::std_specs::bits::{u32_leading_zeros, u16_leading_zeros};
use crate::usb_xhci::hw::structs::{
    Trb, SlotContext, InputControlContext, EndpointContext, EndpointType, AddrInputContext,
    endpoint_word1, bool_bit,
};

verus! {

/// TRB slots counted per ring page by the enqueue logic.
pub const TRBS_PER_PAGE: u8 = 128;

/// Where the next device to be enumerated sits.
#[derive(Copy, Clone, Debug, PartialEq, Eq, Structural)]
pub struct EnumStateDeviceInfo {
    pub route_string: u32,
    pub parent_info: u16,
    pub speed: u8,
    pub root_port: u8,
}

/// Enumeration state of a controller.
pub struct EnumState {
    pub info: EnumStateDeviceInfo,
}

impl EnumState {
    /// Nothing recorded yet (all fields zero).
    pub fn new() -> (r: EnumState)
        ensures
            r.info == (EnumStateDeviceInfo { route_string: 0, parent_info: 0, speed: 0, root_port: 0 }),
    {
        EnumState { info: EnumStateDeviceInfo { route_string: 0, parent_info: 0, speed: 0, root_port: 0 } }
    }
}

/// Enumeration info of a device on `port`, either of the root hub (`hub`
/// is `None`) or of the hub whose slot context and slot index are given.
pub open spec fn device_info_spec(hub: Option<(SlotContext, u8)>, port: usize, speed: u8) -> EnumStateDeviceInfo {
    match hub {
        Some((parent_sc, slot_idx)) => {
            let parent_rs = parent_sc.word0 & 0xF_FFFFu32;
            let shift = 4 * ((32 - u32_leading_zeros(parent_rs) + 3) / 4);
            EnumStateDeviceInfo {
                route_string: parent_rs | ((port << (shift as usize)) as u32),
                root_port: (parent_sc.word1 >> 16u32) as u8,
                parent_info: if speed <= 3 {
                    if (parent_sc.word0 >> 20u32) & 0xFu32 > 3 {
                        (parent_sc.word2 & 0xFFFFu32) as u16
                    } else {
                        (((slot_idx as u16) << 8u16) | (port as u16)) as u16
                    }
                } else {
                    0
                },
                speed,
            }
        },
        None => EnumStateDeviceInfo {
            route_string: 0,
            root_port: ((port as u8) + 1) as u8,
            parent_info: 0,
            speed,
        },
    }
}

proof fn lemma_high_bit_clear(x: u32, j: u32)
    requires
        x >> 20u32 == 0,
        20 <= j < 32,
    ensures
        (x >> j) & 1u32 == 0u32,
{
    assert((x >> j) & 1u32 == 0u32) by (bit_vector)
        requires
            x >> 20u32 == 0,
            20 <= j < 32,
    ;
}

/// Enumeration info of the next device: its route string (the hub's route,
/// a sequence of 4-bit port numbers, with this port appended as the next
/// nibble), root-hub port, and the parent slot and port
/// used for split transactions of a low/full/high-speed device behind a
/// SuperSpeed hub.
pub fn set_device_info(hub: Option<(&SlotContext, u8)>, port: usize, speed: u8) -> (r: EnumStateDeviceInfo)
    requires
        hub is None ==> (port as u8) < 255,
    ensures
        r == device_info_spec(
            match hub {
                Some((sc, i)) => Some((*sc, i)),
                None => None,
            },
            port,
            speed,
        ),
{
    match hub {
        Some((parent_sc, slot_idx)) => {
            let parent_rs = parent_sc.word0 & 0xF_FFFF;
            let lz = parent_rs.leading_zeros();
            proof {
                vstd::std_specs::bits::axiom_u32_leading_zeros(parent_rs);
                let w = parent_sc.word0;
                assert(parent_rs >> 20u32 == 0) by (bit_vector)
                    requires parent_rs == w & 0xF_FFFFu32;
                if lz < 12 {
                    lemma_high_bit_clear(parent_rs, (31 - lz) as u32);
                }
            }
            let bitlen = 32 - lz;
            let shift = 4 * ((bitlen + 3) / 4);
            let route_string = parent_rs | ((port << (shift as usize)) as u32);
            let root_port = (parent_sc.word1 >> 16) as u8;
            let parent_info: u16 = if speed <= 3 {
                if (parent_sc.word0 >> 20) & 0xF > 3 {
                    (parent_sc.word2 & 0xFFFF) as u16
                } else {
                    ((slot_idx as u16) << 8) | (port as u16)
                }
            } else {
                0
            };
            EnumStateDeviceInfo { route_string, parent_info, root_port, speed }
        },
        None => {
            EnumStateDeviceInfo { route_string: 0, root_port: port as u8 + 1, parent_info: 0, speed }
        },
    }
}

/// Slot context of a device being addressed: route string, speed, one
/// context entry (endpoint 0), root-hub port and parent information.
pub open spec fn address_slot_words(info: EnumStateDeviceInfo) -> [u32; 4] {
    [
        info.route_string | ((info.speed as u32) << 20u32) | (1u32 << 27u32),
        (info.root_port as u32) << 16u32,
        info.parent_info as u32,
        0,
    ]
}

/// Fill an input context for addressing a device: add the slot and
/// endpoint 0 (a control endpoint whose ring starts at `ep0_ring_phys`).
pub fn prepare_address_input(ctx: &mut AddrInputContext, info: &EnumStateDeviceInfo, ep0_ring_phys: u64)
    ensures
        final(ctx).ctrl.add_context_flags == 3,
        final(ctx).ctrl.drop_context_flags == 0,
        final(ctx).slot.word0 == address_slot_words(*info)[0],
        final(ctx).slot.word1 == address_slot_words(*info)[1],
        final(ctx).slot.word2 == address_slot_words(*info)[2],
        final(ctx).slot.word3 == 0,
        final(ctx).eps[0].tr_dequeue_ptr == ep0_ring_phys | 1u64,
        final(ctx).eps[0].word1 == endpoint_word1(EndpointType::Control, 0),
        final(ctx).eps[0].word0 == 0,
        final(ctx).eps[0].word4 == 0,
        forall|i: int| 0 <= i < 3 ==> final(ctx).eps[0]._resvd[i] == 0,
        final(ctx).ctrl.configuration_value == 0,
        final(ctx).ctrl.interface_number == 0,
        final(ctx).ctrl.alternate_setting == 0,
        forall|i: int| 0 <= i < 5 ==> final(ctx).ctrl._resvd[i] == 0,
        final(ctx).ctrl._resvd2 == 0,
        forall|i: int| 0 <= i < 4 ==> final(ctx).slot._resvd[i] == 0,
        forall|i: int| 1 <= i < 31 ==> final(ctx).eps[i] == old(ctx).eps[i],
{
    let mut ctrl = InputControlContext::zeroed();
    ctrl.add_context_flags = 0b11;
    ctx.ctrl = ctrl;
    ctx.slot = SlotContext::new([
        info.route_string | ((info.speed as u32) << 20) | (1 << 27),
        (info.root_port as u32) << 16,
        info.parent_info as u32,
        0,
    ]);
    let mut ep0 = EndpointContext::zeroed();
    ep0.tr_dequeue_ptr = ep0_ring_phys | 1;
    ep0.set_word1(EndpointType::Control, 0);
    ctx.eps[0] = ep0;
}

/// Ring position `rel_idx` entries past (`cycle`, `ofs`): past the end of
/// the page it continues with the cycle flipped.
pub open spec fn cycle_and_ofs(cycle: bool, ofs: u8, rel_idx: u8) -> (bool, u8) {
    if ofs + rel_idx >= TRBS_PER_PAGE - 1 {
        (!cycle, (ofs + rel_idx - TRBS_PER_PAGE - 1) as u8)
    } else {
        (cycle, (ofs + rel_idx) as u8)
    }
}

/// The position computation stays in range: the sum fits in a byte, and a
/// wrapped position is not negative (sums of 127 and 128 are refused).
pub open spec fn cycle_and_ofs_ok(ofs: u8, rel_idx: u8) -> bool {
    ofs + rel_idx <= 255 && (ofs + rel_idx < TRBS_PER_PAGE - 1 || ofs + rel_idx >= TRBS_PER_PAGE + 1)
}

/// Position `rel_idx` entries past (`cycle`, `ofs`).
pub fn get_cycle_and_ofs(cycle: bool, ofs: u8, rel_idx: u8) -> (r: (bool, u8))
    requires
        cycle_and_ofs_ok(ofs, rel_idx),
    ensures
        r == cycle_and_ofs(cycle, ofs, rel_idx),
{
    if ofs + rel_idx >= TRBS_PER_PAGE - 1 {
        (!cycle, ofs + rel_idx - TRBS_PER_PAGE - 1)
    } else {
        (cycle, ofs + rel_idx)
    }
}

/// Write TRB number `count` of a batch into the ring, with its cycle bit
/// the opposite of the one it will have (so the controller skips it for now).
pub fn push_trb(ring: &mut Vec<Trb>, cycle: bool, ofs: u8, count: u8, trb: Trb)
    requires
        old(ring)@.len() == 256,
        cycle_and_ofs_ok(ofs, count),
    ensures
        final(ring)@ == old(ring)@.update(
            cycle_and_ofs(cycle, ofs, count).1 as int,
            Trb { word3: (trb.word3 & !1u32) | bool_bit(!cycle_and_ofs(cycle, ofs, count).0), ..trb },
        ),
{
    let (c, o) = get_cycle_and_ofs(cycle, ofs, count);
    let mut t = trb;
    t.set_cycle(!c);
    ring.set(o as usize, t);
}

/// `ring` with the cycle bits of batch entries `0 .. count` set, the
/// highest first (and the link after entry 126 with them).
pub open spec fn commit_spec(ring: Seq<Trb>, cycle: bool, ofs: u8, count: nat) -> Seq<Trb>
    decreases count,
{
    if count == 0 {
        ring
    } else {
        let i = (count - 1) as u8;
        let (c, o) = cycle_and_ofs(cycle, ofs, i);
        let r1 = if o == TRBS_PER_PAGE - 2 {
            ring.update(o + 1, set_cycle_spec(ring[o + 1], c))
        } else {
            ring
        };
        let r2 = r1.update(o as int, set_cycle_spec(r1[o as int], c));
        commit_spec(r2, cycle, ofs, (count - 1) as nat)
    }
}

/// A TRB with its cycle bit replaced.
pub open spec fn set_cycle_spec(t: Trb, c: bool) -> Trb {
    Trb { word3: (t.word3 & !1u32) | bool_bit(c), ..t }
}

/// Hand a batch of `count` pushed TRBs to the controller: set their cycle
/// bits from the last to the first, so the controller sees the batch at
/// once, and return the new enqueue position.
pub fn commit_trbs(ring: &mut Vec<Trb>, cycle: bool, ofs: u8, count: u8) -> (r: (bool, u8))
    requires
        old(ring)@.len() == 256,
        forall|i: u8| i <= count ==> cycle_and_ofs_ok(ofs, i),
    ensures
        final(ring)@ == commit_spec(old(ring)@, cycle, ofs, count as nat),
        r == cycle_and_ofs(cycle, ofs, count),
{
    let mut i: u8 = count;
    while i > 0
        invariant
            i <= count,
            ring@.len() == 256,
            forall|j: u8| j <= count ==> cycle_and_ofs_ok(ofs, j),
            commit_spec(old(ring)@, cycle, ofs, count as nat) == commit_spec(ring@, cycle, ofs, i as nat),
        decreases i,
    {
        i -= 1;
        let (c, o) = get_cycle_and_ofs(cycle, ofs, i);
        if o == TRBS_PER_PAGE - 2 {
            let mut t = ring[o as usize + 1];
            t.set_cycle(c);
            ring.set(o as usize + 1, t);
        }
        let mut t = ring[o as usize];
        t.set_cycle(c);
        ring.set(o as usize, t);
    }
    get_cycle_and_ofs(cycle, ofs, count)
}

/// Claimed endpoints and transfer-ring positions of one device.
pub struct DeviceInfo {
    pub slot_idx: u8,
    /// Bitmask of claimed endpoints
    pub ref_flags: u32,
    /// The device has a full-sized context block
    pub is_configured: bool,
    /// Physical address of each endpoint's transfer ring (endpoint `i + 1`)
    pub endpoint_ring_allocs: [Option<u64>; 31],
    pub endpoint_ring_offsets: [u8; 31],
    pub endpoint_ring_cycles: [bool; 31],
    /// Bitmasks of the IN and OUT endpoints of the configuration
    pub configuration: (u16, u16),
}

impl DeviceInfo {
    /// A freshly addressed device: endpoint 0's ring is set up.
    pub fn new(slot_idx: u8, ep0_ring_phys: u64) -> (r: DeviceInfo)
        ensures
            r.slot_idx == slot_idx,
            r.ref_flags == 0,
            !r.is_configured,
            r.endpoint_ring_allocs[0] == Some(ep0_ring_phys),
            forall|i: int| 1 <= i < 31 ==> r.endpoint_ring_allocs[i] is None,
            forall|i: int| 0 <= i < 31 ==> r.endpoint_ring_offsets[i] == 0 && r.endpoint_ring_cycles[i],
            r.configuration == (0u16, 0u16),
    {
        let mut allocs: [Option<u64>; 31] = [None; 31];
        allocs[0] = Some(ep0_ring_phys);
        DeviceInfo {
            slot_idx,
            ref_flags: 0,
            is_configured: false,
            endpoint_ring_allocs: allocs,
            endpoint_ring_offsets: [0u8; 31],
            endpoint_ring_cycles: [true; 31],
            configuration: (0, 0),
        }
    }

    /// Record the endpoint bitmasks of the device's configuration.
    pub fn set_configuration_info(&mut self, cfg: u8, endpoints_in: u16, endpoints_out: u16)
        requires
            cfg == 0,
        ensures
            final(self).configuration == (endpoints_in, endpoints_out),
            final(self).slot_idx == old(self).slot_idx,
            final(self).ref_flags == old(self).ref_flags,
            final(self).is_configured == old(self).is_configured,
            final(self).endpoint_ring_allocs == old(self).endpoint_ring_allocs,
            final(self).endpoint_ring_offsets == old(self).endpoint_ring_offsets,
            final(self).endpoint_ring_cycles == old(self).endpoint_ring_cycles,
    {
        self.configuration = (endpoints_in, endpoints_out);
    }

    /// Ring address and position of endpoint `endpoint_idx` (numbered
    /// from 1), if its ring exists.
    pub fn get_endpoint(&self, endpoint_idx: u8) -> (r: Option<(u64, bool, u8)>)
        requires
            0 < endpoint_idx <= 31,
        ensures
            match self.endpoint_ring_allocs[endpoint_idx - 1] {
                Some(p) => r == Some((
                    p,
                    self.endpoint_ring_cycles[endpoint_idx - 1],
                    self.endpoint_ring_offsets[endpoint_idx - 1],
                )),
                None => r is None,
            },
    {
        let i = endpoint_idx as usize - 1;
        match self.endpoint_ring_allocs[i] {
            Some(p) => Some((p, self.endpoint_ring_cycles[i], self.endpoint_ring_offsets[i])),
            None => None,
        }
    }

    /// Claim endpoint `endpoint_id` (an unclaimed one below 32). Endpoint 1
    /// (the default control endpoint) needs nothing more; any other gets the
    /// ring at `ring_phys` and `ctx` is filled for a Configure Endpoint
    /// command, whose need is returned.
    pub fn claim_endpoint(
        &mut self,
        ctx: &mut AddrInputContext,
        endpoint_id: u8,
        endpoint_type: EndpointType,
        max_packet_size: usize,
        ring_phys: u64,
    ) -> (r: bool)
        requires
            1 <= endpoint_id < 32,
            old(self).ref_flags & (1u32 << endpoint_id) == 0,
        ensures
            final(self).ref_flags == old(self).ref_flags | (1u32 << endpoint_id),
            final(self).slot_idx == old(self).slot_idx,
            final(self).configuration == old(self).configuration,
            r == (endpoint_id != 1),
            endpoint_id == 1 ==> *final(ctx) == *old(ctx) && final(self).is_configured == old(self).is_configured
                && final(self).endpoint_ring_allocs == old(self).endpoint_ring_allocs,
            endpoint_id != 1 ==> {
                &&& final(self).is_configured
                &&& final(self).endpoint_ring_allocs@ == old(self).endpoint_ring_allocs@.update(endpoint_id - 1, Some(ring_phys))
                &&& final(ctx).ctrl.add_context_flags == (1u32 << endpoint_id) | 1
                &&& final(ctx).ctrl.drop_context_flags == 0
                &&& final(ctx).eps[endpoint_id - 1].word1 == endpoint_word1(endpoint_type, max_packet_size as u16)
                &&& final(ctx).eps[endpoint_id - 1].tr_dequeue_ptr == ring_phys | 1u64
                &&& final(ctx).eps[endpoint_id - 1].word0 == old(ctx).eps[endpoint_id - 1].word0
                &&& final(ctx).eps[endpoint_id - 1].word4 == old(ctx).eps[endpoint_id - 1].word4
                &&& final(ctx).eps[endpoint_id - 1]._resvd == old(ctx).eps[endpoint_id - 1]._resvd
                &&& final(ctx).slot == old(ctx).slot
                &&& forall|i: int| 0 <= i < 31 && i != endpoint_id - 1 ==> final(ctx).eps[i] == old(ctx).eps[i]
            },
            final(self).endpoint_ring_offsets == old(self).endpoint_ring_offsets,
            final(self).endpoint_ring_cycles == old(self).endpoint_ring_cycles,
    {
        self.ref_flags = self.ref_flags | (1u32 << endpoint_id);
        if endpoint_id == 1 {
            return false;
        }
        if !self.is_configured {
            self.is_configured = true;
        }
        let mut ctrl = InputControlContext::zeroed();
        ctrl.add_context_flags = (1u32 << endpoint_id) | 1;
        ctx.ctrl = ctrl;
        let i = endpoint_id as usize - 1;
        let mut ep = ctx.eps[i];
        ep.set_word1(endpoint_type, max_packet_size as u16);
        ep.tr_dequeue_ptr = ring_phys | 1;
        ctx.eps[i] = ep;
        self.endpoint_ring_allocs[i] = Some(ring_phys);
        proof {
            assert(self.endpoint_ring_allocs@ =~= old(self).endpoint_ring_allocs@.update(endpoint_id - 1, Some(ring_phys)));
        }
        true
    }

    /// Number of endpoint context slots the configuration needs: the
    /// highest IN endpoint takes slot `2n + 1`, the highest OUT one `2n`.
    pub fn num_endpoint_slots(&self) -> (r: u8)
        ensures
            r == ({
                let max_in = 16 - u16_leading_zeros(self.configuration.0);
                let max_out = 16 - u16_leading_zeros(self.configuration.1);
                if max_in * 2 + 1 >= max_out * 2 { max_in * 2 + 1 } else { max_out * 2 }
            }),
    {
        let lz_in = self.configuration.0.leading_zeros();
        let lz_out = self.configuration.1.leading_zeros();
        proof {
            vstd::std_specs::bits::axiom_u16_leading_zeros(self.configuration.0);
            vstd::std_specs::bits::axiom_u16_leading_zeros(self.configuration.1);
        }
        let max_ep_in = 16 - lz_in as u8;
        let max_ep_out = 16 - lz_out as u8;
        let a = max_ep_in * 2 + 1;
        let b = max_ep_out * 2;
        if a >= b { a } else { b }
    }
}

/// The page holding a device's contexts: the slot (device) context at
/// offset 0 and the input context at offset 1024.
pub struct DeviceContextPage {
    /// Physical address of the page
    pub phys: u64,
    pub slot: SlotContext,
    pub input: AddrInputContext,
}

impl DeviceContextPage {
    /// The device's slot context.
    pub fn slot_context(&self) -> (r: &SlotContext)
        ensures
            *r == self.slot,
    {
        &self.slot
    }

    /// Physical address of the slot context.
    pub fn slot_context_phys(&self) -> (r: u64)
        ensures
            r == self.phys,
    {
        self.phys
    }

    /// The input context.
    pub fn input_context(&self) -> (r: &AddrInputContext)
        ensures
            *r == self.input,
    {
        &self.input
    }

    /// The input context, to be filled.
    pub fn input_context_mut(&mut self) -> (r: &mut AddrInputContext)
        ensures
            *r == old(self).input,
            final(self).input == *final(r),
            final(self).phys == old(self).phys,
            final(self).slot == old(self).slot,
    {
        &mut self.input
    }

    /// Physical address of the input context.
    pub fn input_context_phys(&self) -> (r: u64)
        requires
            self.phys + 1024 <= u64::MAX,
        ensures
            r == self.phys + 1024,
    {
        self.phys + 1024
    }
}

} // verus!
