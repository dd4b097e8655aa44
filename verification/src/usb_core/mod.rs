//! USB core: addresses, descriptors, hubs and driver matching.
use vstd::prelude::*;
use self::hw_decls::{
    Descriptor_Endpoint, Descriptor_Interface, DescriptorAny, DeviceRequest, IterDescriptors,
    descriptor_available, descriptor_any_kind, endpoint_descriptor_of, interface_descriptor_of,
};
use self::device::{MatchLevel, find_driver, match_rank};

pub mod device;
pub mod handle;
pub mod host;
pub mod hw_decls;
pub mod hub;
pub mod port;

verus! {

/// Device address allocation for a bus.
pub struct AddressPool {
    pub next_id: u8,
    pub used_ids: [u8; 16],
}

impl AddressPool {
    /// Address `i` is in use.
    pub open spec fn used(&self, i: int) -> bool {
        0 <= i < 128 && self.used_ids@[i / 8] & (1u8 << ((i % 8) as u8)) != 0
    }

    /// Allocation can proceed: there is a free address at or after `next_id`
    /// (the allocator does not look past address 127).
    pub open spec fn can_allocate(&self) -> bool {
        exists|j: int| self.next_id <= j < 128 && !self.used(j)
    }

    /// A pool with no addresses in use; allocation starts at address 1.
    pub fn new() -> (r: AddressPool)
        ensures
            r.next_id == 1,
            forall|i: int| !r.used(i),
    {
        let r = AddressPool { next_id: 1, used_ids: [0u8; 16] };
        assert forall|i: int| !r.used(i) by {
            if 0 <= i < 128 {
                let j = (i % 8) as u8;
                crate::bits::lemma_u8_bits(0, j, j);
            }
        }
        r
    }

    /// Allocate the first free address at or after `next_id`, mark it used
    /// and continue from the following address next time.
    pub fn allocate(&mut self) -> (r: Option<u8>)
        requires
            old(self).can_allocate(),
        ensures
            r matches Some(j) && old(self).next_id <= j < 128 && !old(self).used(j as int)
                && (forall|k: int| old(self).next_id <= k < j ==> old(self).used(k))
                && (forall|k: int| final(self).used(k) == (old(self).used(k) || k == j))
                && final(self).next_id == j + 1,
    {
        let mut i: u8 = self.next_id;
        while i < 128
            invariant
                old(self).next_id <= i,
                *self == *old(self),
                old(self).can_allocate(),
                forall|k: int| old(self).next_id <= k < i ==> old(self).used(k),
            decreases 128 - i,
        {
            let idx = (i / 8) as usize;
            let sh = i % 8;
            let bitmask: u8 = 1u8 << sh;
            let byte = self.used_ids[idx];
            if byte & bitmask == 0 {
                self.used_ids[idx] = byte | bitmask;
                self.next_id = i + 1;
                proof {
                    assert forall|k: int| self.used(k) == (old(self).used(k) || k == i) by {
                        if 0 <= k < 128 {
                            let kk = (k % 8) as u8;
                            if k / 8 == i / 8 {
                                crate::bits::lemma_u8_bits(byte, sh, kk);
                            }
                        }
                    }
                }
                return Some(i);
            }
            i += 1;
        }
        proof {
            let j = choose|j: int| old(self).next_id <= j < 128 && !old(self).used(j);
            assert(old(self).used(j));
        }
        None
    }
}

/// Transfer kind of an endpoint, from its descriptor.
#[derive(Copy, Clone, Debug, PartialEq, Eq, Structural)]
pub enum EndpointKind {
    Control,
    BulkIn,
    BulkOut,
    Interrupt,
}

/// Endpoint parameters decoded from its descriptor.
#[derive(Copy, Clone, Debug)]
pub struct EndpointSpec {
    pub kind: EndpointKind,
    pub ep_num: u8,
    pub max_packet_size: u16,
    pub poll_period: u8,
}

/// The endpoint can be set up (isochronous and OUT interrupt endpoints are not supported).
pub open spec fn endpoint_supported(d: Descriptor_Endpoint) -> bool {
    let ty = d.attributes & 3;
    ty != 1 && !(ty == 3 && d.address & 0x80 == 0)
}

/// Decode an endpoint descriptor into the endpoint to create.
pub fn endpoint_spec(d: &Descriptor_Endpoint) -> (r: EndpointSpec)
    requires
        endpoint_supported(*d),
    ensures
        r.ep_num == d.address & 0xF,
        r.max_packet_size == (d.max_packet_size.0 as u16) | (((d.max_packet_size.1 as u16) & 0x07) << 8),
        r.poll_period == d.max_polling_interval,
        r.kind == (if d.attributes & 3 == 0 {
            EndpointKind::Control
        } else if d.attributes & 3 == 2 {
            if d.address & 0x80 != 0 { EndpointKind::BulkIn } else { EndpointKind::BulkOut }
        } else {
            EndpointKind::Interrupt
        }),
{
    let ep_num = d.address & 0xF;
    let ep_dir_in = d.address & 0x80 != 0;
    let ep_type = d.attributes & 0x3;
    let max_packet_size = (d.max_packet_size.0 as u16) | (((d.max_packet_size.1 as u16) & 0x07) << 8);
    let kind = if ep_type == 0 {
        EndpointKind::Control
    } else if ep_type == 2 {
        if ep_dir_in { EndpointKind::BulkIn } else { EndpointKind::BulkOut }
    } else {
        EndpointKind::Interrupt
    };
    EndpointSpec { kind, ep_num, max_packet_size, poll_period: d.max_polling_interval }
}

/// Full class code of an interface: class, subclass and protocol bytes.
pub fn interface_class_code(d: &Descriptor_Interface) -> (r: u32)
    ensures
        r == ((d.interface_class as u32) << 16) | ((d.interface_sub_class as u32) << 8) | (d.interface_protocol as u32),
{
    ((d.interface_class as u32) << 16) | ((d.interface_sub_class as u32) << 8) | (d.interface_protocol as u32)
}

/// Interfaces of class 9 are hubs (handled by the core itself).
pub fn is_hub_class(full_class: u32) -> (r: bool)
    ensures
        r == (full_class & 0xFF0000 == 0x090000),
{
    full_class & 0xFF0000 == 0x090000
}

/// The descriptor walk over `s` never meets a zero-length descriptor
/// (which would never advance).
pub open spec fn descriptors_advance(s: Seq<u8>) -> bool
    decreases s.len(),
{
    if !descriptor_available(s) {
        true
    } else {
        s[0] != 0 && descriptors_advance(s.skip(s[0] as int))
    }
}

/// The interfaces of a configuration's descriptor list `s` (starting at
/// offset `pos` of the whole list), each with the byte range of the
/// descriptors that follow it up to the next interface (or the end of the
/// readable descriptors); `last` is the interface being collected.
pub open spec fn split_interfaces(s: Seq<u8>, pos: int, last: Option<(Descriptor_Interface, int)>) -> Seq<(Descriptor_Interface, int, int)>
    decreases s.len(),
{
    let flush = match last {
        Some((v, st)) => seq![(v, st, pos)],
        None => Seq::empty(),
    };
    if !descriptor_available(s) || s[0] == 0 {
        flush
    } else {
        let l = s[0] as int;
        let d = s.take(l);
        if descriptor_any_kind(d) == Some(4int) {
            flush + split_interfaces(s.skip(l), pos + l, Some((interface_descriptor_of(d), pos + l)))
        } else {
            split_interfaces(s.skip(l), pos + l, last)
        }
    }
}

/// Split a configuration's descriptor list into its interfaces: each
/// interface descriptor with the range `start .. end` of the descriptors
/// (endpoints and class descriptors) that belong to it.
pub fn split_configuration(descs: &[u8]) -> (r: Vec<(Descriptor_Interface, usize, usize)>)
    requires
        descriptors_advance(descs@),
    ensures
        r@.map_values(|e: (Descriptor_Interface, usize, usize)| (e.0, e.1 as int, e.2 as int))
            == split_interfaces(descs@, 0, None),
{
    let mut out: Vec<(Descriptor_Interface, usize, usize)> = Vec::new();
    let mut it = IterDescriptors(descs);
    let mut pos: usize = 0;
    let mut last: Option<(Descriptor_Interface, usize)> = None;
    let n = descs.len();
    loop
        invariant
            n == descs@.len(),
            pos + it.0@.len() == n,
            it.0@ == descs@.skip(pos as int),
            descriptors_advance(it.0@),
            last matches Some((_, st)) ==> st <= pos,
            split_interfaces(descs@, 0, None) == out@.map_values(
                |e: (Descriptor_Interface, usize, usize)| (e.0, e.1 as int, e.2 as int),
            ) + split_interfaces(
                it.0@,
                pos as int,
                match last {
                    Some((v, st)) => Some((v, st as int)),
                    None => None,
                },
            ),
        ensures
            split_interfaces(descs@, 0, None) == out@.map_values(
                |e: (Descriptor_Interface, usize, usize)| (e.0, e.1 as int, e.2 as int),
            ) + split_interfaces(
                it.0@,
                pos as int,
                match last {
                    Some((v, st)) => Some((v, st as int)),
                    None => None,
                },
            ),
            !descriptor_available(it.0@),
            pos + it.0@.len() == n,
            last matches Some((_, st)) ==> st <= pos,
        decreases it.0@.len(),
    {
        let ghost s = it.0@;
        let ghost lastg = match last {
            Some((v, st)) => Some((v, st as int)),
            None => None,
        };
        let desc = match it.next() {
            Some(d) => d,
            None => break,
        };
        let l = desc.len();
        proof {
            assert(l == s[0]);
            assert(l > 0);
            assert(it.0@ =~= descs@.skip(pos + l));
        }
        let ghost old_out = out@;
        match DescriptorAny::from_bytes(desc) {
            Ok(DescriptorAny::Interface(v)) => {
                if let Some((pv, st)) = last {
                    out.push((pv, st, pos));
                }
                last = Some((v, pos + l));
                proof {
                    assert(descriptor_any_kind(s.take(l as int)) == Some(4int));
                    let f = |e: (Descriptor_Interface, usize, usize)| (e.0, e.1 as int, e.2 as int);
                    assert(out@.map_values(f) =~= old_out.map_values(f) + match lastg {
                        Some((v0, st0)) => seq![(v0, st0, pos as int)],
                        None => Seq::empty(),
                    });
                }
            },
            _ => {
                proof {
                    assert(descriptor_any_kind(s.take(l as int)) != Some(4int));
                }
            },
        }
        pos += l;
    }
    let ghost out_before = out@;
    if let Some((v, st)) = last {
        out.push((v, st, pos));
    }
    proof {
        let f = |e: (Descriptor_Interface, usize, usize)| (e.0, e.1 as int, e.2 as int);
        assert(out@.map_values(f) =~= out_before.map_values(f) + split_interfaces(
            it.0@,
            pos as int,
            match last {
                Some((v, st)) => Some((v, st as int)),
                None => None,
            },
        ));
    }
    out
}

/// The GET_DESCRIPTOR request for descriptor type `ty` (the high byte's
/// bits select the request type and recipient), index `index`, into a
/// buffer of `len` bytes.
pub fn descriptor_request(ty: u16, index: u8, len: usize) -> (r: DeviceRequest)
    ensures
        r.req_type == (0x80u8 | ((((ty >> 8) as u8) & 3) << 5) | (((ty >> 12) as u8) & 3)),
        r.req_num == 6,
        r.value == ((ty << 8) | (index as u16)),
        r.index == 0,
        r.length == len as u16,
{
    DeviceRequest {
        req_type: 0x80u8 | ((((ty >> 8) as u8) & 3) << 5) | (((ty >> 12) as u8) & 3),
        req_num: 6,
        value: (ty << 8) | (index as u16),
        index: 0,
        length: len as u16,
    }
}

/// A control request carrying `len` bytes of data.
pub fn control_request(request_type: u8, request_num: u8, value: u16, index: u16, len: usize) -> (r: DeviceRequest)
    ensures
        r == (DeviceRequest { req_type: request_type, req_num: request_num, value, index, length: len as u16 }),
{
    DeviceRequest { req_type: request_type, req_num: request_num, value, index, length: len as u16 }
}

/// The SET_ADDRESS request that gives the device at address 0 address `addr`.
pub fn set_address_request(addr: u8) -> (r: DeviceRequest)
    ensures
        r == (DeviceRequest { req_type: 0, req_num: 5, value: addr as u16, index: 0, length: 0 }),
{
    control_request(0x00, 5, addr as u16, 0, 0)
}

/// The endpoint a supported endpoint descriptor describes.
pub open spec fn endpoint_spec_of(d: Descriptor_Endpoint) -> EndpointSpec {
    EndpointSpec {
        kind: if d.attributes & 3 == 0 {
            EndpointKind::Control
        } else if d.attributes & 3 == 2 {
            if d.address & 0x80 != 0 { EndpointKind::BulkIn } else { EndpointKind::BulkOut }
        } else {
            EndpointKind::Interrupt
        },
        ep_num: d.address & 0xF,
        max_packet_size: (d.max_packet_size.0 as u16) | (((d.max_packet_size.1 as u16) & 0x07) << 8),
        poll_period: d.max_polling_interval,
    }
}

/// Every endpoint descriptor met walking `s` can be set up.
pub open spec fn endpoints_supported(s: Seq<u8>) -> bool
    decreases s.len(),
{
    if !descriptor_available(s) || s[0] == 0 {
        true
    } else {
        let d = s.take(s[0] as int);
        (descriptor_any_kind(d) == Some(5int) ==> endpoint_supported(endpoint_descriptor_of(d)))
            && endpoints_supported(s.skip(s[0] as int))
    }
}

/// The endpoints described among the descriptors of `s`, in order.
pub open spec fn endpoint_specs(s: Seq<u8>) -> Seq<EndpointSpec>
    decreases s.len(),
{
    if !descriptor_available(s) || s[0] == 0 {
        Seq::empty()
    } else {
        let d = s.take(s[0] as int);
        let rest = endpoint_specs(s.skip(s[0] as int));
        if descriptor_any_kind(d) == Some(5int) {
            seq![endpoint_spec_of(endpoint_descriptor_of(d))] + rest
        } else {
            rest
        }
    }
}

/// The endpoints to create for an interface, from the descriptors that
/// follow its interface descriptor.
pub fn interface_endpoints(descriptors: &[u8]) -> (r: Vec<EndpointSpec>)
    requires
        descriptors_advance(descriptors@),
        endpoints_supported(descriptors@),
    ensures
        r@ == endpoint_specs(descriptors@),
{
    let mut out: Vec<EndpointSpec> = Vec::new();
    let mut it = IterDescriptors(descriptors);
    loop
        invariant
            descriptors_advance(it.0@),
            endpoints_supported(it.0@),
            endpoint_specs(descriptors@) == out@ + endpoint_specs(it.0@),
        ensures
            endpoint_specs(descriptors@) == out@,
        decreases it.0@.len(),
    {
        let ghost s = it.0@;
        let desc = match it.next() {
            Some(d) => d,
            None => {
                assert(endpoint_specs(s) =~= Seq::<EndpointSpec>::empty());
                assert(out@ + endpoint_specs(s) =~= out@);
                break;
            },
        };
        let ghost old_out = out@;
        proof {
            assert(desc@.len() == s[0]);
            assert(s[0] != 0);
        }
        match DescriptorAny::from_bytes(desc) {
            Ok(DescriptorAny::Endpoint(ep)) => {
                proof {
                    assert(descriptor_any_kind(desc@) == Some(5int));
                }
                let spec = endpoint_spec(&ep);
                out.push(spec);
                proof {
                    assert(out@ + endpoint_specs(it.0@) =~= old_out + endpoint_specs(s));
                }
            },
            _ => {
                proof {
                    assert(descriptor_any_kind(desc@) != Some(5int));
                }
            },
        }
    }
    out
}

/// How an interface is bound.
#[derive(Copy, Clone, Debug, PartialEq, Eq, Structural)]
pub enum InterfaceBinding {
    /// A hub, handled by the core itself
    Hub,
    /// The registered driver at this index
    Driver(usize),
    /// No driver: the endpoints and descriptors are kept for later
    Unknown,
}

/// The binding of an interface of class `full_class`, given the match
/// level each registered driver reports for it: hubs first, then the best
/// matching driver, else none.
pub fn bind_interface(full_class: u32, levels: &[MatchLevel]) -> (r: InterfaceBinding)
    ensures
        full_class & 0xFF0000 == 0x090000 ==> r == InterfaceBinding::Hub,
        full_class & 0xFF0000 != 0x090000 && (forall|j: int| 0 <= j < levels@.len() ==> levels@[j] == MatchLevel::Unmatched)
            ==> r == InterfaceBinding::Unknown,
        full_class & 0xFF0000 != 0x090000 && !(forall|j: int| 0 <= j < levels@.len() ==> levels@[j] == MatchLevel::Unmatched)
            ==> (r matches InterfaceBinding::Driver(i) && i < levels@.len()
                && levels@[i as int] != MatchLevel::Unmatched
                && (forall|j: int| 0 <= j < i ==> match_rank(levels@[j]) < match_rank(levels@[i as int]))
                && (forall|j: int| 0 <= j < levels@.len() ==> match_rank(levels@[j]) <= match_rank(levels@[i as int]))),
{
    if is_hub_class(full_class) {
        return InterfaceBinding::Hub;
    }
    match find_driver(levels) {
        Some(i) => InterfaceBinding::Driver(i),
        None => InterfaceBinding::Unknown,
    }
}

} // verus!
