//! Root-hub port features, queue-head endpoint words, and the USB1
//! (split transaction) state of devices behind hubs.
use vstd::prelude::*;
use crate::usb_core::hub::PortFeature;
use crate::usb_core::host::{EndpointAddr, HubPortSpeed};

verus! {

/// What is done with a port feature.
#[derive(Copy, Clone, Debug, PartialEq, Eq, Structural)]
pub enum FeatureOp {
    /// All features support get
    Get,
    /// Some can only be cleared
    Clear,
    /// And even fewer can be set
    SetBit,
}

/// PORTSC bit of a feature for an operation, `None` where the operation
/// does not apply.
pub open spec fn feature_bit_spec(feature: PortFeature, o: FeatureOp) -> Option<u32> {
    match feature {
        PortFeature::Connection => if o == FeatureOp::Get { Some(0x0001u32) } else { None },
        PortFeature::Enable => Some(0x0004),
        PortFeature::Suspend => Some(0x0080),
        PortFeature::OverCurrent => if o == FeatureOp::Get { Some(0x0010u32) } else { None },
        PortFeature::Reset => Some(0x0100),
        PortFeature::Power => Some(0x1000),
        PortFeature::LowSpeed => None,
        PortFeature::CConnection => if o != FeatureOp::SetBit { Some(0x0002u32) } else { None },
        PortFeature::CEnable => if o != FeatureOp::SetBit { Some(0x0008u32) } else { None },
        PortFeature::CSuspend => None,
        PortFeature::COverCurrent => if o != FeatureOp::SetBit { Some(0x0020u32) } else { None },
        PortFeature::CReset => None,
        PortFeature::Test => None,
        PortFeature::Indicator => if o == FeatureOp::SetBit { Some(0x8000u32) } else { Some(0xC000u32) },
    }
}

/// Reading port features from PORTSC (EHCI layout): the connection is bit
/// 0 and its change bit 1, enabled bit 2 and its change bit 3,
/// over-current bit 4 and its change bit 5, suspend bit 7, reset bit 8 and
/// power bit 12; no two features read the same bits, and a feature that can
/// be set is set through the same bit it is read from.
pub proof fn lemma_portsc_layout(f: PortFeature, g: PortFeature)
    ensures
        feature_bit_spec(PortFeature::Connection, FeatureOp::Get) == Some(0x1u32),
        feature_bit_spec(PortFeature::CConnection, FeatureOp::Get) == Some(0x2u32),
        feature_bit_spec(PortFeature::Enable, FeatureOp::Get) == Some(0x4u32),
        feature_bit_spec(PortFeature::CEnable, FeatureOp::Get) == Some(0x8u32),
        feature_bit_spec(PortFeature::OverCurrent, FeatureOp::Get) == Some(0x10u32),
        feature_bit_spec(PortFeature::COverCurrent, FeatureOp::Get) == Some(0x20u32),
        feature_bit_spec(PortFeature::Suspend, FeatureOp::Get) == Some(0x80u32),
        feature_bit_spec(PortFeature::Reset, FeatureOp::Get) == Some(0x100u32),
        feature_bit_spec(PortFeature::Power, FeatureOp::Get) == Some(0x1000u32),
        f != g && feature_bit_spec(f, FeatureOp::Get) is Some && feature_bit_spec(g, FeatureOp::Get) is Some
            && f != PortFeature::Indicator && g != PortFeature::Indicator ==> feature_bit_spec(f, FeatureOp::Get)
            != feature_bit_spec(g, FeatureOp::Get),
        f != PortFeature::Indicator && feature_bit_spec(f, FeatureOp::SetBit) is Some ==> feature_bit_spec(
            f,
            FeatureOp::SetBit,
        ) == feature_bit_spec(f, FeatureOp::Get),
{
}

/// PORTSC bit of a feature for an operation.
pub fn feature_bit(feature: PortFeature, o: FeatureOp) -> (r: Option<u32>)
    ensures
        r == feature_bit_spec(feature, o),
{
    let only_get = o == FeatureOp::Get;
    let no_set = o != FeatureOp::SetBit;
    match feature {
        PortFeature::Connection => if only_get { Some(0x0001) } else { None },
        PortFeature::Enable => Some(0x0004),
        PortFeature::Suspend => Some(0x0080),
        PortFeature::OverCurrent => if only_get { Some(0x0010) } else { None },
        PortFeature::Reset => Some(0x0100),
        PortFeature::Power => Some(0x1000),
        PortFeature::LowSpeed => None,
        PortFeature::CConnection => if no_set { Some(0x0002) } else { None },
        PortFeature::CEnable => if no_set { Some(0x0008) } else { None },
        PortFeature::CSuspend => None,
        PortFeature::COverCurrent => if no_set { Some(0x0020) } else { None },
        PortFeature::CReset => None,
        PortFeature::Test => None,
        PortFeature::Indicator => if o == FeatureOp::SetBit { Some(0x8000) } else { Some(0xC000) },
    }
}

/// New PORTSC value to set a feature (`None`: nothing to write).
pub fn set_port_feature_value(sc: u32, feature: PortFeature) -> (r: Option<u32>)
    ensures
        r == match feature_bit_spec(feature, FeatureOp::SetBit) {
            Some(bit) => Some(sc | bit),
            None => None,
        },
{
    match feature_bit(feature, FeatureOp::SetBit) {
        Some(bit) => Some(sc | bit),
        None => None,
    }
}

/// New PORTSC value to clear a feature (`None`: nothing to write).
pub fn clear_port_feature_value(sc: u32, feature: PortFeature) -> (r: Option<u32>)
    ensures
        r == match feature_bit_spec(feature, FeatureOp::Clear) {
            Some(bit) => Some(sc & !bit),
            None => None,
        },
{
    match feature_bit(feature, FeatureOp::Clear) {
        Some(bit) => Some(sc & !bit),
        None => None,
    }
}

/// Whether a feature is set in a PORTSC value.
pub fn get_port_feature_value(sc: u32, feature: PortFeature) -> (r: bool)
    ensures
        r == match feature_bit_spec(feature, FeatureOp::Get) {
            Some(bit) => sc & bit != 0,
            None => false,
        },
{
    match feature_bit(feature, FeatureOp::Get) {
        Some(bit) => sc & bit != 0,
        None => false,
    }
}

/// How a low- or full-speed device is reached through a high-speed hub.
#[derive(Copy, Clone, Debug, PartialEq, Eq, Structural)]
pub struct Usb1 {
    pub hub_addr: u8,
    pub hub_port: u8,
    pub is_fullspeed: bool,
}

/// `endpoint_id` with the control flag and speed set for `usb1`.
pub open spec fn usb1_endpoint_id(endpoint_id: u32, usb1: Option<Usb1>, is_control: bool) -> u32 {
    (endpoint_id & !0x0800_3000u32)
        | (if is_control && usb1 is Some { 0x0800_0000u32 } else { 0u32 })
        | ((match usb1 {
            Some(u) => if u.is_fullspeed { 0u32 } else { 1u32 },
            None => 2u32,
        }) << 12u32)
}

/// `endpoint_ext` with the hub address and port set for `usb1`.
pub open spec fn usb1_endpoint_ext(endpoint_ext: u32, usb1: Option<Usb1>) -> u32 {
    (endpoint_ext & !0x3FFF_0000u32)
        | (match usb1 { Some(u) => (u.hub_port as u32) << 23u32, None => 0u32 })
        | (match usb1 { Some(u) => (u.hub_addr as u32) << 16u32, None => 0u32 })
}

/// Update a queue head's endpoint words for a device's USB1 state.
pub fn set_usb1_state(endpoint_id: &mut u32, endpoint_ext: &mut u32, usb1: Option<Usb1>, is_control: bool)
    ensures
        *final(endpoint_id) == usb1_endpoint_id(*old(endpoint_id), usb1, is_control),
        *final(endpoint_ext) == usb1_endpoint_ext(*old(endpoint_ext), usb1),
{
    let ctl: u32 = if is_control && usb1.is_some() { 0x0800_0000 } else { 0 };
    let speed: u32 = match usb1 {
        Some(u) => if u.is_fullspeed { 0 } else { 1 },
        None => 2,
    };
    *endpoint_id = (*endpoint_id & !0x0800_3000u32) | ctl | (speed << 12);
    let port: u32 = match usb1 { Some(u) => (u.hub_port as u32) << 23, None => 0 };
    let addr: u32 = match usb1 { Some(u) => (u.hub_addr as u32) << 16, None => 0 };
    *endpoint_ext = (*endpoint_ext & !0x3FFF_0000u32) | port | addr;
}

/// The endpoint and endpoint-extension words of a queue head for an endpoint.
pub fn make_endpoint_spec(endpoint: &EndpointAddr, max_packet_size: usize, usb1: Option<Usb1>, is_control: bool) -> (r: (u32, u32))
    ensures
        r.0 == usb1_endpoint_id(
            ((max_packet_size as u32) << 16u32) | (endpoint.dev_addr_spec() as u32) | ((endpoint.endpt_spec() as u32) << 8u32),
            usb1,
            is_control,
        ),
        r.1 == usb1_endpoint_ext(0x4000_0000u32, usb1),
{
    let mut endpoint_id = ((max_packet_size as u32) << 16) | (endpoint.dev_addr() as u32) | ((endpoint.endpt() as u32) << 8);
    let mut endpoint_ext: u32 = 0x4000_0000;
    set_usb1_state(&mut endpoint_id, &mut endpoint_ext, usb1, is_control);
    (endpoint_id, endpoint_ext)
}

/// USB1 state of a device that appeared on `port` of hub `hub_addr` at
/// `speed`: low/full speed inherits the hub's own USB1 routing (or goes
/// through this hub), anything faster needs none.
pub open spec fn usb1_for_port_spec(hub_usb1: Option<Usb1>, hub_addr: u8, port: usize, speed: HubPortSpeed) -> Option<Usb1> {
    if speed == HubPortSpeed::Low || speed == HubPortSpeed::Full {
        let base = match hub_usb1 {
            Some(p) => p,
            None => Usb1 { hub_addr, hub_port: port as u8, is_fullspeed: false },
        };
        Some(Usb1 { is_fullspeed: speed == HubPortSpeed::Full, ..base })
    } else {
        None
    }
}

/// USB1 state for the device now at address zero.
pub fn usb1_for_port(hub_usb1: Option<Usb1>, hub_addr: u8, port: usize, speed: HubPortSpeed) -> (r: Option<Usb1>)
    ensures
        r == usb1_for_port_spec(hub_usb1, hub_addr, port, speed),
{
    if speed == HubPortSpeed::Low || speed == HubPortSpeed::Full {
        let base = match hub_usb1 {
            Some(p) => p,
            None => Usb1 { hub_addr, hub_port: port as u8, is_fullspeed: false },
        };
        Some(Usb1 { is_fullspeed: speed == HubPortSpeed::Full, ..base })
    } else {
        None
    }
}

/// The lowest port below `nports` with a pending update, and the mask
/// without it.
pub fn take_port_update(v: u32, nports: u8) -> (r: Option<(u8, u32)>)
    requires
        nports <= 32,
    ensures
        match r {
            Some((i, rest)) => i < nports && v & (1u32 << i) != 0 && rest == v & !(1u32 << i)
                && forall|j: u32| j < i ==> v & (1u32 << j) == 0,
            None => forall|j: u32| j < nports ==> v & (1u32 << j) == 0,
        },
{
    let mut i: u8 = 0;
    while i < nports
        invariant
            i <= nports,
            nports <= 32,
            forall|j: u32| j < i ==> v & (1u32 << j) == 0,
        decreases nports - i,
    {
        let bit = 1u32 << i;
        if v & bit != 0 {
            return Some((i, v & !bit));
        }
        i += 1;
    }
    None
}

} // verus!
