//! Root-hub port features and the decisions of the host-controller
//! interface: which endpoint kind serves a control endpoint, how SETUP data
//! and data stages become TRBs, and which endpoints a configuration uses.
use vstd::prelude::*;
use crate::usb_core::hub::PortFeature;
use crate::usb_core::host::{EndpointAddr, HubPortSpeed};
use crate::usb_core::hw_decls::{
    IterDescriptors, DescriptorAny, descriptor_available, descriptor_any_kind,
    endpoint_descriptor_of,
};
use crate::usb_core::descriptors_advance;
use crate::usb_xhci::hw::structs::{
    TrbControlSetup, TrbControlSetupTransferType, TrbControlData, TrbControlStatus, TrbNormal, TrbNormalData,
};

verus! {

/// The PORTSC (mask, value) pair that stands for a feature; (0, 0) for a
/// feature the controller does not have.
pub open spec fn feature_bits(feature: PortFeature) -> (u32, u32) {
    match feature {
        PortFeature::Connection => (0x1, 0x1),
        PortFeature::Enable => (0x2, 0x2),
        PortFeature::Suspend => (0, 0),
        PortFeature::OverCurrent => (0x8, 0x8),
        PortFeature::Reset => (0x10, 0x10),
        PortFeature::Power => (0x200, 0x200),
        PortFeature::LowSpeed => (0, 0),
        PortFeature::CConnection => (0x2_0000, 0x2_0000),
        PortFeature::CEnable => (0x4_0000, 0x4_0000),
        PortFeature::CSuspend => (0, 0),
        PortFeature::COverCurrent => (0x10_0000, 0x10_0000),
        PortFeature::CReset => (0x20_0000, 0x20_0000),
        PortFeature::Test => (0, 0),
        PortFeature::Indicator => (0xC000, 0x8000),
    }
}

/// The PORTSC (mask, value) pair of a feature.
pub fn get_feature(feature: PortFeature) -> (r: (u32, u32))
    ensures
        r == feature_bits(feature),
{
    match feature {
        PortFeature::Connection => (0x1, 0x1),
        PortFeature::Enable => (0x2, 0x2),
        PortFeature::Suspend => (0, 0),
        PortFeature::OverCurrent => (0x8, 0x8),
        PortFeature::Reset => (0x10, 0x10),
        PortFeature::Power => (0x200, 0x200),
        PortFeature::LowSpeed => (0, 0),
        PortFeature::CConnection => (0x2_0000, 0x2_0000),
        PortFeature::CEnable => (0x4_0000, 0x4_0000),
        PortFeature::CSuspend => (0, 0),
        PortFeature::COverCurrent => (0x10_0000, 0x10_0000),
        PortFeature::CReset => (0x20_0000, 0x20_0000),
        PortFeature::Test => (0, 0),
        PortFeature::Indicator => (0xC000, 0x8000),
    }
}

/// New PORTSC value to set a feature, or `None` when there is nothing to write.
pub fn set_port_feature_value(sc: u32, feature: PortFeature) -> (r: Option<u32>)
    ensures
        feature_bits(feature).0 == 0 ==> r is None,
        feature_bits(feature).0 != 0 ==> r == Some((sc & !feature_bits(feature).0) | feature_bits(feature).1),
{
    let (mask, val) = get_feature(feature);
    if mask == 0 {
        return None;
    }
    Some((sc & !mask) | val)
}

/// New PORTSC value to clear a feature, or `None` when there is nothing to write.
pub fn clear_port_feature_value(sc: u32, feature: PortFeature) -> (r: Option<u32>)
    ensures
        feature_bits(feature).0 == 0 ==> r is None,
        feature_bits(feature).0 != 0 ==> r == Some(sc & !feature_bits(feature).0),
{
    let (mask, _val) = get_feature(feature);
    if mask == 0 {
        return None;
    }
    Some(sc & !mask)
}

/// Whether a feature is set in a PORTSC value (never, for one the controller lacks).
pub fn get_port_feature_value(sc: u32, feature: PortFeature) -> (r: bool)
    ensures
        r == (feature_bits(feature).0 != 0 && sc & feature_bits(feature).0 == feature_bits(feature).1),
{
    let (mask, val) = get_feature(feature);
    if mask == 0 {
        return false;
    }
    sc & mask == val
}

/// Port speed field (bits 13:10) of a PORTSC value.
pub fn port_speed(sc: u32) -> (r: u8)
    ensures
        r == ((sc >> 10u32) as u8) & 0xF,
{
    ((sc >> 10) as u8) & 0xF
}

pub open spec fn hub_port_speed_value(s: HubPortSpeed) -> u8 {
    match s {
        HubPortSpeed::Full => 1,
        HubPortSpeed::Low => 2,
        HubPortSpeed::High => 3,
        HubPortSpeed::Super => 4,
        HubPortSpeed::SuperSpeedPlusG2 => 5,
        HubPortSpeed::SuperSpeedPlusG1X2 => 6,
        HubPortSpeed::SuperSpeedPlusG2X2 => 7,
    }
}

/// Slot-context speed value of a hub port speed.
pub fn hub_port_speed_code(s: HubPortSpeed) -> (r: u8)
    ensures
        r == hub_port_speed_value(s),
{
    match s {
        HubPortSpeed::Full => 1,
        HubPortSpeed::Low => 2,
        HubPortSpeed::High => 3,
        HubPortSpeed::Super => 4,
        HubPortSpeed::SuperSpeedPlusG2 => 5,
        HubPortSpeed::SuperSpeedPlusG1X2 => 6,
        HubPortSpeed::SuperSpeedPlusG2X2 => 7,
    }
}

/// Which implementation serves a control endpoint.
#[derive(Copy, Clone, Debug, PartialEq, Eq, Structural)]
pub enum ControlKind {
    /// Device 0, still being enumerated
    Device0,
    /// Endpoint 0 of an addressed device (watches for configuration)
    Endpoint0,
    /// Any other control endpoint
    Control,
}

/// The kind of control endpoint for an address (device 0 only has endpoint 0).
pub fn control_kind(endpoint: &EndpointAddr) -> (r: ControlKind)
    requires
        endpoint.dev_addr_spec() == 0 ==> endpoint.endpt_spec() == 0,
    ensures
        endpoint.dev_addr_spec() == 0 ==> r == ControlKind::Device0,
        endpoint.dev_addr_spec() != 0 && endpoint.endpt_spec() == 0 ==> r == ControlKind::Endpoint0,
        endpoint.dev_addr_spec() != 0 && endpoint.endpt_spec() != 0 ==> r == ControlKind::Control,
{
    if endpoint.dev_addr() == 0 {
        ControlKind::Device0
    } else if endpoint.endpt() == 0 {
        ControlKind::Endpoint0
    } else {
        ControlKind::Control
    }
}

/// Little-endian 16-bit value at `i`.
pub open spec fn le16_at(b: Seq<u8>, i: int) -> u16 {
    (b[i] as u16) | ((b[i + 1] as u16) << 8u16)
}

/// SETUP TRB for an 8-byte SETUP packet (the data is carried in the TRB).
pub fn parse_setup(setup_data: &[u8], transfer_type: TrbControlSetupTransferType) -> (r: TrbControlSetup)
    requires
        setup_data@.len() >= 8,
    ensures
        r.bm_request_type == setup_data@[0],
        r.b_request == setup_data@[1],
        r.w_value == le16_at(setup_data@, 2),
        r.w_index == le16_at(setup_data@, 4),
        r.w_length == le16_at(setup_data@, 6),
        r.interupter_target == 0,
        r.trb_transfer_length == 8,
        r.transfer_type == transfer_type,
        !r.ioc,
        r.idt,
{
    TrbControlSetup {
        bm_request_type: setup_data[0],
        b_request: setup_data[1],
        w_value: (setup_data[2] as u16) | ((setup_data[3] as u16) << 8),
        w_index: (setup_data[4] as u16) | ((setup_data[5] as u16) << 8),
        w_length: (setup_data[6] as u16) | ((setup_data[7] as u16) << 8),
        interupter_target: 0,
        trb_transfer_length: 8,
        transfer_type,
        ioc: false,
        idt: true,
    }
}

/// Data-stage TRB of a control transfer; it chains to the next TRB unless it
/// is the last one.
pub fn get_control_data(direction_in: bool, d: TrbNormalData, len: u32, is_last: bool) -> (r: TrbControlData)
    requires
        d is InlineData ==> len <= 8,
    ensures
        r.data == d,
        r.trb_transfer_length == len,
        r.chain_bit == !is_last,
        r.direction_in == direction_in,
        r.evaluate_next_trb == !is_last,
        !r.interrupt_on_short_packet,
        !r.ioc,
        !r.no_snoop,
        r.td_size == 1,
        r.interrupter_target == 0,
{
    TrbControlData {
        data: d,
        trb_transfer_length: len,
        chain_bit: !is_last,
        direction_in,
        evaluate_next_trb: !is_last,
        interrupt_on_short_packet: false,
        ioc: false,
        no_snoop: false,
        td_size: 1,
        interrupter_target: 0,
    }
}

/// Normal TRB of a bulk transfer; the last one interrupts on completion,
/// the others chain.
pub fn get_bulk_data(d: TrbNormalData, len: u32, is_last: bool) -> (r: TrbNormal)
    requires
        d is InlineData ==> len <= 8,
    ensures
        r.data == d,
        r.transfer_length == len,
        r.chain_bit == !is_last,
        r.evaluate_next_trb == !is_last,
        r.ioc == is_last,
        !r.interrupt_on_short_packet,
        !r.no_snoop,
        r.td_size == 1,
        r.interrupter_target == 0,
        !r.block_event_interrupt,
{
    TrbNormal {
        data: d,
        transfer_length: len,
        chain_bit: !is_last,
        evaluate_next_trb: !is_last,
        interrupt_on_short_packet: false,
        ioc: is_last,
        no_snoop: false,
        td_size: 1,
        interrupter_target: 0,
        block_event_interrupt: false,
    }
}

/// Endpoint bitmasks found in a configuration's descriptors.
#[derive(Copy, Clone, Debug, PartialEq, Eq, Structural)]
pub struct EndpointScan {
    /// Bit `n` set when IN endpoint `n` exists
    pub endpoints_in: u16,
    /// Bit `n` set when OUT endpoint `n` exists
    pub endpoints_out: u16,
    /// Number of endpoint descriptors
    pub n_endpoints: u32,
    /// Context index (`2n + direction`) of the last endpoint
    pub max_endpoint: u8,
}

/// Account for one endpoint descriptor address.
pub open spec fn scan_endpoint(acc: EndpointScan, address: u8) -> EndpointScan {
    let ep_num = address & 0xF;
    let dir_in = address & 0x80 != 0;
    EndpointScan {
        endpoints_in: if dir_in { acc.endpoints_in | (1u16 << ep_num) } else { acc.endpoints_in },
        endpoints_out: if dir_in { acc.endpoints_out } else { acc.endpoints_out | (1u16 << ep_num) },
        n_endpoints: (acc.n_endpoints + 1) as u32,
        max_endpoint: (ep_num * 2 + (if dir_in { 1u8 } else { 0u8 })) as u8,
    }
}

/// Scan the descriptors in `s` from `acc`, counting the endpoint ones.
pub open spec fn scan_endpoints(s: Seq<u8>, acc: EndpointScan) -> EndpointScan
    decreases s.len(),
{
    if !descriptor_available(s) || s[0] == 0 {
        acc
    } else {
        let d = s.take(s[0] as int);
        let acc2 = if descriptor_any_kind(d) == Some(5int) {
            scan_endpoint(acc, endpoint_descriptor_of(d).address)
        } else {
            acc
        };
        scan_endpoints(s.skip(s[0] as int), acc2)
    }
}

pub open spec fn empty_scan() -> EndpointScan {
    EndpointScan { endpoints_in: 0, endpoints_out: 0, n_endpoints: 0, max_endpoint: 0 }
}

/// Scan a configuration's descriptors for its endpoints.
pub fn scan_configuration_endpoints(data: &[u8]) -> (r: EndpointScan)
    requires
        descriptors_advance(data@),
        data@.len() < 0x1_0000_0000,
    ensures
        r == scan_endpoints(data@, empty_scan()),
{
    let mut it = IterDescriptors(data);
    let mut acc = EndpointScan { endpoints_in: 0, endpoints_out: 0, n_endpoints: 0, max_endpoint: 0 };
    loop
        invariant
            descriptors_advance(it.0@),
            acc.n_endpoints + it.0@.len() <= data@.len(),
            data@.len() < 0x1_0000_0000,
            scan_endpoints(data@, empty_scan()) == scan_endpoints(it.0@, acc),
        decreases it.0@.len(),
    {
        let ghost before = it.0@;
        match it.next() {
            None => {
                return acc;
            },
            Some(desc) => {
                assert(before[0] != 0);
                assert(it.0@.len() == before.len() - before[0]);
                assert(acc.n_endpoints + before.len() <= data@.len());
                if let Ok(DescriptorAny::Endpoint(ep_desc)) = DescriptorAny::from_bytes(desc) {
                    let address = ep_desc.address;
                    let ep_num = address & 0xF;
                    let ep_dir_in = address & 0x80 != 0;
                    proof {
                        crate::bits::lemma_u8_and_le(address, 0xF);
                    }
                    if ep_dir_in {
                        acc.endpoints_in = acc.endpoints_in | (1u16 << ep_num);
                    } else {
                        acc.endpoints_out = acc.endpoints_out | (1u16 << ep_num);
                    }
                    acc.max_endpoint = ep_num * 2 + (if ep_dir_in { 1u8 } else { 0u8 });
                    acc.n_endpoints = acc.n_endpoints + 1;
                }
            },
        }
    }
}

/// Configuration index and endpoint masks seen in the reply to a
/// GET_DESCRIPTOR(configuration) request, once the whole descriptor block
/// has arrived (`None` while it is shorter than its total length).
pub fn configuration_endpoint_info(setup_data: &[u8], data: &[u8]) -> (r: Option<(u8, u16, u16)>)
    requires
        setup_data@.len() >= 8,
        data@.len() >= 4,
        data@[1] == 2,
        data@.len() >= le16_at(data@, 2) ==> descriptors_advance(data@),
        data@.len() < 0x1_0000_0000,
    ensures
        data@.len() < le16_at(data@, 2) ==> r is None,
        data@.len() >= le16_at(data@, 2) ==> r == Some((
            setup_data@[2],
            scan_endpoints(data@, empty_scan()).endpoints_in,
            scan_endpoints(data@, empty_scan()).endpoints_out,
        )),
{
    let total_length = (data[2] as u16) | ((data[3] as u16) << 8);
    if data.len() >= total_length as usize {
        let desc_index = setup_data[2];
        let scan = scan_configuration_endpoints(data);
        Some((desc_index, scan.endpoints_in, scan.endpoints_out))
    } else {
        None
    }
}

/// A control endpoint of an addressed device.
pub struct Control {
    pub addr: u8,
    pub endpoint: u8,
}

/// Context indices a control endpoint claims: 1 for endpoint 0, else both
/// directions (`2n` and `2n + 1`).
pub open spec fn control_context_indices(endpoint: u8) -> (u8, Option<u8>) {
    if endpoint == 0 {
        (1, None)
    } else {
        ((endpoint * 2) as u8, Some((endpoint * 2 + 1) as u8))
    }
}

impl Control {
    /// A control endpoint; returns it with the context indices to claim.
    pub fn new(addr: u8, endpoint: u8) -> (r: (Control, (u8, Option<u8>)))
        requires
            endpoint < 16,
        ensures
            r.0.addr == addr,
            r.0.endpoint == endpoint,
            r.1 == control_context_indices(endpoint),
    {
        let ids = if endpoint == 0 {
            (1u8, None)
        } else {
            (endpoint * 2, Some(endpoint * 2 + 1))
        };
        (Control { addr, endpoint }, ids)
    }

    /// Context index used for OUT transfers (and SETUP stages).
    pub fn out_index(&self) -> (r: u8)
        requires
            self.endpoint < 16,
        ensures
            r == (if self.endpoint == 0 { 1 } else { self.endpoint * 2 }),
    {
        if self.endpoint == 0 { 1 } else { self.endpoint * 2 }
    }

    /// Context index used for IN transfers.
    pub fn in_index(&self) -> (r: u8)
        requires
            self.endpoint < 16,
        ensures
            r == self.endpoint * 2 + 1,
    {
        self.endpoint * 2 + 1
    }
}

/// Endpoint 0 of an addressed device, watching configuration requests.
pub struct Endpoint0 {
    pub inner: Control,
}

impl Endpoint0 {
    /// Endpoint 0 of device `addr`; returns it with the context index to claim.
    pub fn new(addr: u8) -> (r: (Endpoint0, u8))
        ensures
            r.0.inner.addr == addr,
            r.0.inner.endpoint == 0,
            r.1 == 1,
    {
        (Endpoint0 { inner: Control { addr, endpoint: 0 } }, 1)
    }

    /// The request is a GET_DESCRIPTOR for a configuration descriptor, whose
    /// reply is scanned for endpoints.
    pub fn watches_in_request(setup_data: &[u8]) -> (r: bool)
        ensures
            r == (setup_data@.len() >= 8 && setup_data@[0] == 0x80 && setup_data@[1] == 6
                && setup_data@[3] == 2),
    {
        setup_data.len() >= 8 && setup_data[0] == 0x80 && setup_data[1] == 6 && setup_data[3] == 2
    }

    /// The request is a SET_CONFIGURATION (which this driver cannot follow yet).
    pub fn is_set_configuration(setup_data: &[u8]) -> (r: bool)
        ensures
            r == (setup_data@.len() >= 4 && setup_data@[0] == 0 && setup_data@[1] == 9),
    {
        setup_data.len() >= 4 && setup_data[0] == 0 && setup_data[1] == 9
    }
}

/// A bulk IN endpoint (context index `2n + 1`).
pub struct BulkIn {
    pub addr: u8,
    pub index: u8,
}

impl BulkIn {
    pub fn new(addr: u8, endpoint: u8) -> (r: BulkIn)
        requires
            endpoint < 16,
        ensures
            r.addr == addr,
            r.index == endpoint * 2 + 1,
    {
        BulkIn { addr, index: endpoint * 2 + 1 }
    }
}

/// A bulk OUT endpoint (context index `2n`).
pub struct BulkOut {
    pub addr: u8,
    pub index: u8,
}

impl BulkOut {
    pub fn new(addr: u8, endpoint: u8) -> (r: BulkOut)
        requires
            endpoint < 16,
        ensures
            r.addr == addr,
            r.index == endpoint * 2,
    {
        BulkOut { addr, index: endpoint * 2 }
    }
}

/// The address a SET_ADDRESS request sent to device 0 assigns, or `None`
/// for any other request (which device 0 does not accept).
pub fn device0_set_address(setup_data: &[u8]) -> (r: Option<u8>)
    ensures
        (setup_data@.len() >= 4 && setup_data@[0] == 0 && setup_data@[1] == 5) ==> r == Some(
            setup_data@[2],
        ),
        !(setup_data@.len() >= 4 && setup_data@[0] == 0 && setup_data@[1] == 5) ==> r is None,
{
    if setup_data.len() >= 4 && setup_data[0] == 0 && setup_data[1] == 5 {
        Some(setup_data[2])
    } else {
        None
    }
}

/// A TRB of a control transfer.
pub enum ControlStage {
    Setup(TrbControlSetup),
    Data(TrbControlData),
    Status(TrbControlStatus),
}

/// The SETUP stage for an 8-byte SETUP packet.
pub open spec fn setup_stage(setup_data: Seq<u8>, transfer_type: TrbControlSetupTransferType) -> TrbControlSetup {
    TrbControlSetup {
        bm_request_type: setup_data[0],
        b_request: setup_data[1],
        w_value: le16_at(setup_data, 2),
        w_index: le16_at(setup_data, 4),
        w_length: le16_at(setup_data, 6),
        trb_transfer_length: 8,
        interupter_target: 0,
        ioc: false,
        idt: true,
        transfer_type,
    }
}

/// A data stage in direction `direction_in`.
pub open spec fn data_stage(direction_in: bool, d: TrbNormalData, len: u32, is_last: bool) -> TrbControlData {
    TrbControlData {
        data: d,
        trb_transfer_length: len,
        td_size: 1,
        interrupter_target: 0,
        evaluate_next_trb: !is_last,
        interrupt_on_short_packet: false,
        no_snoop: false,
        chain_bit: !is_last,
        ioc: false,
        direction_in,
    }
}

/// The status stage in direction `direction_in`, interrupting on completion.
pub open spec fn status_stage(direction_in: bool) -> TrbControlStatus {
    TrbControlStatus { interrupter_target: 0, evaluate_next_trb: false, ioc: true, direction_in }
}

/// Append one data-stage TRB per physically contiguous piece of the buffer
/// (address, length, last piece).
fn push_pieces(out: &mut Vec<ControlStage>, direction_in: bool, pieces: &[(u64, usize, bool)])
    ensures
        final(out)@.len() == old(out)@.len() + pieces@.len(),
        forall|i: int| 0 <= i < old(out)@.len() ==> final(out)@[i] == old(out)@[i],
        forall|i: int| 0 <= i < pieces@.len() ==> final(out)@[old(out)@.len() + i] == ControlStage::Data(
            data_stage(direction_in, TrbNormalData::Pointer(pieces@[i].0), pieces@[i].1 as u32, pieces@[i].2)),
{
    let ghost o = out@;
    let mut i: usize = 0;
    while i < pieces.len()
        invariant
            i <= pieces@.len(),
            out@.len() == o.len() + i,
            forall|k: int| 0 <= k < o.len() ==> out@[k] == o[k],
            forall|k: int| 0 <= k < i ==> out@[o.len() + k] == ControlStage::Data(
                data_stage(direction_in, TrbNormalData::Pointer(pieces@[k].0), pieces@[k].1 as u32, pieces@[k].2)),
        decreases pieces@.len() - i,
    {
        let (paddr, len, is_last) = pieces[i];
        out.push(ControlStage::Data(get_control_data(direction_in, TrbNormalData::Pointer(paddr), len as u32, is_last)));
        i += 1;
    }
}

/// The TRBs of a control OUT transfer: the SETUP stage, the data (carried
/// in the TRB when it fits in eight bytes, else one TRB per physically
/// contiguous piece), and an IN status stage.
pub fn control_out_stages(setup_data: &[u8], out_data: &[u8], pieces: &[(u64, usize, bool)]) -> (r: Vec<ControlStage>)
    requires
        setup_data@.len() >= 8,
    ensures
        r@.len() == 2 + (if out_data@.len() == 0 { 0 } else if out_data@.len() <= 8 { 1 } else { pieces@.len() as int }),
        r@[0] == ControlStage::Setup(setup_stage(setup_data@, TrbControlSetupTransferType::Out)),
        r@[r@.len() - 1] == ControlStage::Status(status_stage(true)),
        0 < out_data@.len() <= 8 ==> (r@[1] matches ControlStage::Data(d)
            && d == data_stage(false, d.data, out_data@.len() as u32, true)
            && (d.data matches TrbNormalData::InlineData(a)
                && forall|i: int| 0 <= i < 8 ==> a[i] == (if i < out_data@.len() { out_data@[i] } else { 0u8 }))),
        out_data@.len() > 8 ==> forall|i: int| 0 <= i < pieces@.len() ==> r@[1 + i] == ControlStage::Data(
            data_stage(false, TrbNormalData::Pointer(pieces@[i].0), pieces@[i].1 as u32, pieces@[i].2)),
{
    let mut out: Vec<ControlStage> = Vec::new();
    out.push(ControlStage::Setup(parse_setup(setup_data, TrbControlSetupTransferType::Out)));
    if out_data.len() > 0 {
        match TrbNormalData::make_inline(out_data) {
            Some(d) => {
                out.push(ControlStage::Data(get_control_data(false, d, out_data.len() as u32, true)));
            },
            None => {
                push_pieces(&mut out, false, pieces);
            },
        }
    }
    out.push(ControlStage::Status(TrbControlStatus { direction_in: true, ioc: true, evaluate_next_trb: false, interrupter_target: 0 }));
    out
}

/// The TRBs of a control IN transfer: the SETUP stage, one data-stage TRB
/// per physically contiguous piece of the buffer, and an OUT status stage.
pub fn control_in_stages(setup_data: &[u8], pieces: &[(u64, usize, bool)]) -> (r: Vec<ControlStage>)
    requires
        setup_data@.len() >= 8,
    ensures
        r@.len() == 2 + pieces@.len(),
        r@[0] == ControlStage::Setup(setup_stage(setup_data@, TrbControlSetupTransferType::In)),
        forall|i: int| 0 <= i < pieces@.len() ==> r@[1 + i] == ControlStage::Data(
            data_stage(true, TrbNormalData::Pointer(pieces@[i].0), pieces@[i].1 as u32, pieces@[i].2)),
        r@[r@.len() - 1] == ControlStage::Status(status_stage(false)),
{
    let mut out: Vec<ControlStage> = Vec::new();
    out.push(ControlStage::Setup(parse_setup(setup_data, TrbControlSetupTransferType::In)));
    push_pieces(&mut out, true, pieces);
    out.push(ControlStage::Status(TrbControlStatus { direction_in: false, ioc: true, evaluate_next_trb: false, interrupter_target: 0 }));
    out
}

/// Bytes a transfer of `len` bytes moved, given what the completion event
/// reports left over.
pub fn transferred_len(len: usize, unused_len: u32) -> (r: usize)
    requires
        unused_len <= len,
    ensures
        r == len - unused_len,
{
    len - unused_len as usize
}

/// A normal TRB of a bulk or interrupt transfer for one contiguous piece.
pub open spec fn normal_piece(piece: (u64, usize, bool)) -> TrbNormal {
    TrbNormal {
        data: TrbNormalData::Pointer(piece.0),
        transfer_length: piece.1 as u32,
        chain_bit: !piece.2,
        evaluate_next_trb: !piece.2,
        interrupt_on_short_packet: false,
        ioc: piece.2,
        no_snoop: false,
        td_size: 1,
        interrupter_target: 0,
        block_event_interrupt: false,
    }
}

/// The TRBs of a bulk (or interrupt) transfer: one per physically
/// contiguous piece of the buffer (address, length, last piece).
pub fn transfer_trbs(pieces: &[(u64, usize, bool)]) -> (r: Vec<TrbNormal>)
    ensures
        r@.len() == pieces@.len(),
        forall|i: int| 0 <= i < pieces@.len() ==> r@[i] == normal_piece(pieces@[i]),
{
    let mut out: Vec<TrbNormal> = Vec::new();
    let mut i: usize = 0;
    while i < pieces.len()
        invariant
            i <= pieces@.len(),
            out@.len() == i,
            forall|k: int| 0 <= k < i ==> out@[k] == normal_piece(pieces@[k]),
        decreases pieces@.len() - i,
    {
        let (paddr, len, is_last) = pieces[i];
        out.push(get_bulk_data(TrbNormalData::Pointer(paddr), len as u32, is_last));
        i += 1;
    }
    out
}

/// Polling interval of an interrupt endpoint as the endpoint context takes
/// it: the number of significant bits of the period in milliseconds, plus 3
/// (so in 125 us units, as a power of two).
pub fn interrupt_period_log2(period_ms: u64) -> (r: u8)
    ensures
        r == 64 - vstd::std_specs::bits::u64_leading_zeros(period_ms) + 3,
{
    let lz = period_ms.leading_zeros();
    proof {
        vstd::std_specs::bits::axiom_u64_leading_zeros(period_ms);
    }
    (64 - lz + 3) as u8
}

/// Double buffering of an interrupt endpoint: the hardware fills one buffer
/// while the other may be lent out.
pub struct InterruptBuffers {
    /// The buffer the hardware fills next
    pub cur_buffer: bool,
    /// The other buffer is lent out
    pub other_borrowed: bool,
    pub max_packet_size: usize,
}

impl InterruptBuffers {
    /// Both buffers free; the hardware fills the first.
    pub fn new(max_packet_size: usize) -> (r: InterruptBuffers)
        ensures
            !r.cur_buffer && !r.other_borrowed && r.max_packet_size == max_packet_size,
    {
        InterruptBuffers { cur_buffer: false, other_borrowed: false, max_packet_size }
    }

    /// Byte range of buffer `idx` in the backing store.
    pub fn buffer_range(&self, idx: bool) -> (r: (usize, usize))
        requires
            2 * self.max_packet_size <= usize::MAX,
        ensures
            r.0 == (if idx { self.max_packet_size } else { 0 }),
            r.1 == r.0 + self.max_packet_size,
    {
        let start = if idx { self.max_packet_size } else { 0 };
        (start, start + self.max_packet_size)
    }

    /// A transfer completed with `unused_len` bytes left over: the filled
    /// buffer is lent out and the hardware moves to the other. Returns the
    /// filled buffer and the bytes it holds.
    pub fn complete(&mut self, unused_len: u32) -> (r: (bool, u32))
        requires
            !old(self).other_borrowed,
            unused_len <= old(self).max_packet_size,
            old(self).max_packet_size <= u32::MAX,
        ensures
            r.0 == old(self).cur_buffer,
            r.1 == old(self).max_packet_size - unused_len,
            final(self).cur_buffer == !old(self).cur_buffer,
            final(self).other_borrowed,
            final(self).max_packet_size == old(self).max_packet_size,
    {
        let ret_len = self.max_packet_size as u32 - unused_len;
        let buf = self.cur_buffer;
        self.cur_buffer = !buf;
        self.other_borrowed = true;
        (buf, ret_len)
    }

    /// The lent buffer came back.
    pub fn release(&mut self)
        ensures
            !final(self).other_borrowed,
            final(self).cur_buffer == old(self).cur_buffer,
            final(self).max_packet_size == old(self).max_packet_size,
    {
        self.other_borrowed = false;
    }
}

} // verus!
