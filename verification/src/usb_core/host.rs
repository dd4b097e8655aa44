//! Host-controller side types shared by all controller drivers.
use vstd::prelude::*;

verus! {

/// Combined device address (7 bits) and endpoint number (4 bits).
pub struct EndpointAddr(u16);

impl EndpointAddr {
    /// The packed value of this address.
    pub closed spec fn packed(&self) -> u16 {
        self.0
    }

    /// Pack a device address and an endpoint number.
    pub fn new(dev: u8, endpt: u8) -> (r: EndpointAddr)
        requires
            dev < 128,
            endpt < 16,
        ensures
            r.packed() == dev * 16 + endpt,
            r.dev_addr_spec() == dev,
            r.endpt_spec() == endpt,
    {
        let r = EndpointAddr(dev as u16 * 16 + endpt as u16);
        let v: u16 = r.0;
        assert(v >> 4 == dev as u16 && v & 0xF == endpt as u16) by (bit_vector)
            requires v == dev as u16 * 16 + endpt as u16, dev < 128, endpt < 16;
        r
    }

    pub open spec fn dev_addr_spec(&self) -> u8 {
        (self.packed() >> 4) as u8
    }

    pub open spec fn endpt_spec(&self) -> u8 {
        (self.packed() & 0xF) as u8
    }

    /// Device address part.
    pub fn dev_addr(&self) -> (r: u8)
        ensures
            r == self.dev_addr_spec(),
    {
        (self.0 >> 4) as u8
    }

    /// Endpoint number part.
    pub fn endpt(&self) -> (r: u8)
        ensures
            r == self.endpt_spec(),
    {
        (self.0 & 0xF) as u8
    }
}

/// Speed of a port of a hub.
#[derive(Copy, Clone, Debug, PartialEq, Eq, Structural)]
pub enum HubPortSpeed {
    Full,
    Low,
    High,
    Super,
    SuperSpeedPlusG2,
    SuperSpeedPlusG1X2,
    SuperSpeedPlusG2X2,
}

} // verus!
