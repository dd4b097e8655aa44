//! USB descriptor and request layouts.
use vstd::prelude::*;
use crate::usb_hid::report_parser::slice_skip;

verus! {

/// A descriptor did not have the expected layout.
#[derive(Debug, PartialEq, Eq, Structural, Copy, Clone)]
pub struct ParseError;

/// Little-endian 16-bit value at `i` in `b`.
pub open spec fn le16(b: Seq<u8>, i: int) -> u16 {
    ((b[i] as u16) | ((b[i + 1] as u16) << 8)) as u16
}

/// A descriptor type that can be decoded from its raw bytes.
pub trait Descriptor: Sized {
    /// The descriptor type number (as used in GET_DESCRIPTOR).
    fn descriptor_type() -> (r: u16);

    /// Decode from raw bytes.
    fn from_bytes(b: &[u8]) -> (r: Result<Self, ParseError>);
}

/// The descriptors in `s`, each cut at its own length byte, until the data
/// runs out or a descriptor claims more bytes than remain. A zero length
/// byte yields an empty descriptor without advancing.
pub open spec fn descriptor_available(s: Seq<u8>) -> bool {
    s.len() > 0 && (s[0] as int) <= s.len()
}

/// Iterator over the descriptors in a configuration block.
pub struct IterDescriptors<'a>(pub &'a [u8]);

impl<'a> IterDescriptors<'a> {
    /// The next descriptor, cut at its length byte.
    pub fn next(&mut self) -> (r: Option<&'a [u8]>)
        ensures
            descriptor_available(old(self).0@) ==> (r matches Some(d) && d@ == old(self).0@.take(
                old(self).0@[0] as int,
            ) && final(self).0@ == old(self).0@.skip(old(self).0@[0] as int)),
            !descriptor_available(old(self).0@) ==> r is None && final(self).0@ == old(self).0@,
    {
        if self.0.len() == 0 {
            None
        } else {
            let len = self.0[0] as usize;
            if len > self.0.len() {
                return None;
            }
            let (rv, rest) = self.0.split_at(len);
            proof {
                assert(rv@ =~= self.0@.take(len as int));
                assert(rest@ =~= self.0@.skip(len as int));
            }
            self.0 = rest;
            Some(rv)
        }
    }
}

/// Standard device descriptor (type 1), 18 bytes.
#[allow(non_camel_case_types)]
#[derive(Copy, Clone, Debug)]
pub struct Descriptor_Device {
    pub length: u8,
    pub desc_type: u8,
    pub usb_version: u16,
    pub device_class: u8,
    pub device_sub_class: u8,
    pub device_protocol: u8,
    pub max_packet_size: u8,
    pub vendor_id: u16,
    pub device_id: u16,
    pub bcd_device: u16,
    pub manufacturer_str: u8,
    pub product_str: u8,
    pub serial_number_str: u8,
    pub num_configurations: u8,
}

/// The device descriptor laid out in `b` (exactly 18 bytes).
pub open spec fn device_descriptor_of(b: Seq<u8>) -> Descriptor_Device {
    Descriptor_Device {
        length: b[0],
        desc_type: b[1],
        usb_version: le16(b, 2),
        device_class: b[4],
        device_sub_class: b[5],
        device_protocol: b[6],
        max_packet_size: b[7],
        vendor_id: le16(b, 8),
        device_id: le16(b, 10),
        bcd_device: le16(b, 12),
        manufacturer_str: b[14],
        product_str: b[15],
        serial_number_str: b[16],
        num_configurations: b[17],
    }
}

fn read_le16(b: &[u8], i: usize) -> (r: u16)
    requires
        i + 1 < b@.len(),
    ensures
        r == le16(b@, i as int),
{
    (b[i] as u16) | ((b[i + 1] as u16) << 8)
}

impl Descriptor for Descriptor_Device {
    fn descriptor_type() -> (r: u16)
        ensures
            r == 1,
    {
        1
    }

    fn from_bytes(b: &[u8]) -> (r: Result<Self, ParseError>)
        ensures
            b@.len() == 18 ==> r == Ok::<Descriptor_Device, ParseError>(device_descriptor_of(b@)),
            b@.len() != 18 ==> r == Err::<Descriptor_Device, ParseError>(ParseError),
    {
        if b.len() != 18 {
            return Err(ParseError);
        }
        Ok(Descriptor_Device {
            length: b[0],
            desc_type: b[1],
            usb_version: read_le16(b, 2),
            device_class: b[4],
            device_sub_class: b[5],
            device_protocol: b[6],
            max_packet_size: b[7],
            vendor_id: read_le16(b, 8),
            device_id: read_le16(b, 10),
            bcd_device: read_le16(b, 12),
            manufacturer_str: b[14],
            product_str: b[15],
            serial_number_str: b[16],
            num_configurations: b[17],
        })
    }
}

/// Configuration descriptor header (type 2); its in-memory size is 10 bytes
/// (9 bytes of fields and one byte of alignment padding).
#[allow(non_camel_case_types)]
#[derive(Copy, Clone, Debug)]
pub struct Descriptor_Configuration {
    pub length: u8,
    pub desc_type: u8,
    pub total_length: u16,
    pub num_interfaces: u8,
    pub configuration_value: u8,
    pub configuration_str: u8,
    pub attributes_bitmap: u8,
    /// Units: 2mA
    pub max_power: u8,
}

/// The configuration header laid out in `b`.
pub open spec fn configuration_descriptor_of(b: Seq<u8>) -> Descriptor_Configuration {
    Descriptor_Configuration {
        length: b[0],
        desc_type: b[1],
        total_length: le16(b, 2),
        num_interfaces: b[4],
        configuration_value: b[5],
        configuration_str: b[6],
        attributes_bitmap: b[7],
        max_power: b[8],
    }
}

impl Descriptor for Descriptor_Configuration {
    fn descriptor_type() -> (r: u16)
        ensures
            r == 2,
    {
        2
    }

    fn from_bytes(b: &[u8]) -> (r: Result<Self, ParseError>)
        ensures
            b@.len() == 10 ==> r == Ok::<Descriptor_Configuration, ParseError>(
                configuration_descriptor_of(b@),
            ),
            b@.len() != 10 ==> r == Err::<Descriptor_Configuration, ParseError>(ParseError),
    {
        if b.len() != 10 {
            return Err(ParseError);
        }
        Ok(Descriptor_Configuration {
            length: b[0],
            desc_type: b[1],
            total_length: read_le16(b, 2),
            num_interfaces: b[4],
            configuration_value: b[5],
            configuration_str: b[6],
            attributes_bitmap: b[7],
            max_power: b[8],
        })
    }
}

/// String descriptor (type 3): up to 127 UTF-16 code units.
#[allow(non_camel_case_types)]
#[derive(Copy, Clone)]
pub struct Descriptor_String {
    pub length: u8,
    pub desc_type: u8,
    pub utf16: [u16; 127],
}

/// Code unit `k` of a string descriptor built from `b` (zero past the data).
pub open spec fn string_unit(b: Seq<u8>, k: int) -> u16 {
    if 2 * k + 3 < b.len() { le16(b, 2 * k + 2) } else { 0 }
}

impl Descriptor for Descriptor_String {
    fn descriptor_type() -> (r: u16)
        ensures
            r == 3,
    {
        3
    }

    /// Decode a string descriptor: fails on fewer than 4 or an odd number of
    /// bytes; bytes past the data are zero.
    fn from_bytes(b: &[u8]) -> (r: Result<Self, ParseError>)
        ensures
            (b@.len() < 4 || b@.len() % 2 != 0) ==> r == Err::<Descriptor_String, ParseError>(
                ParseError,
            ),
            !(b@.len() < 4 || b@.len() % 2 != 0) && b@.len() <= 256 ==> (r matches Ok(d) && d.length
                == b@[0] && d.desc_type == b@[1] && forall|k: int|
                0 <= k < 127 ==> d.utf16@[k] == string_unit(b@, k)),
    {
        if b.len() < 4 || b.len() % 2 != 0 {
            return Err(ParseError);
        }
        let n = b.len();
        let mut utf16 = [0u16; 127];
        let mut k: usize = 0;
        while k < 127
            invariant
                k <= 127,
                n == b@.len(),
                forall|j: int| 0 <= j < k ==> utf16@[j] == string_unit(b@, j),
                forall|j: int| k <= j < 127 ==> utf16@[j] == 0,
            decreases 127 - k,
        {
            if 2 * k + 3 < n {
                utf16[k] = read_le16(b, 2 * k + 2);
            }
            k += 1;
        }
        Ok(Descriptor_String { length: b[0], desc_type: b[1], utf16 })
    }
}

/// Interface descriptor (type 4), 9 bytes.
#[allow(non_camel_case_types)]
#[derive(Copy, Clone, Debug)]
pub struct Descriptor_Interface {
    pub length: u8,
    pub desc_type: u8,
    pub interface_num: u8,
    pub alternate_setting: u8,
    pub num_endpoints: u8,
    pub interface_class: u8,
    pub interface_sub_class: u8,
    pub interface_protocol: u8,
    pub interface_str: u8,
}

/// The interface descriptor laid out in `b`.
pub open spec fn interface_descriptor_of(b: Seq<u8>) -> Descriptor_Interface {
    Descriptor_Interface {
        length: b[0],
        desc_type: b[1],
        interface_num: b[2],
        alternate_setting: b[3],
        num_endpoints: b[4],
        interface_class: b[5],
        interface_sub_class: b[6],
        interface_protocol: b[7],
        interface_str: b[8],
    }
}

impl Descriptor for Descriptor_Interface {
    fn descriptor_type() -> (r: u16)
        ensures
            r == 4,
    {
        4
    }

    fn from_bytes(b: &[u8]) -> (r: Result<Self, ParseError>)
        ensures
            b@.len() == 9 ==> r == Ok::<Descriptor_Interface, ParseError>(interface_descriptor_of(b@)),
            b@.len() != 9 ==> r == Err::<Descriptor_Interface, ParseError>(ParseError),
    {
        if b.len() != 9 {
            return Err(ParseError);
        }
        Ok(Descriptor_Interface {
            length: b[0],
            desc_type: b[1],
            interface_num: b[2],
            alternate_setting: b[3],
            num_endpoints: b[4],
            interface_class: b[5],
            interface_sub_class: b[6],
            interface_protocol: b[7],
            interface_str: b[8],
        })
    }
}

/// Endpoint descriptor (type 5), 7 bytes.
#[allow(non_camel_case_types)]
#[derive(Copy, Clone, Debug)]
pub struct Descriptor_Endpoint {
    pub length: u8,
    pub desc_type: u8,
    /// 0-3: endpoint number; 7: direction (1 = IN)
    pub address: u8,
    /// 0-1: transfer type (control, isochronous, bulk, interrupt)
    pub attributes: u8,
    /// Little-endian max packet size (bits 0-10 are the size)
    pub max_packet_size: (u8, u8),
    pub max_polling_interval: u8,
}

/// The endpoint descriptor laid out in `b`.
pub open spec fn endpoint_descriptor_of(b: Seq<u8>) -> Descriptor_Endpoint {
    Descriptor_Endpoint {
        length: b[0],
        desc_type: b[1],
        address: b[2],
        attributes: b[3],
        max_packet_size: (b[4], b[5]),
        max_polling_interval: b[6],
    }
}

impl Descriptor for Descriptor_Endpoint {
    fn descriptor_type() -> (r: u16)
        ensures
            r == 5,
    {
        5
    }

    fn from_bytes(b: &[u8]) -> (r: Result<Self, ParseError>)
        ensures
            b@.len() == 7 ==> r == Ok::<Descriptor_Endpoint, ParseError>(endpoint_descriptor_of(b@)),
            b@.len() != 7 ==> r == Err::<Descriptor_Endpoint, ParseError>(ParseError),
    {
        if b.len() != 7 {
            return Err(ParseError);
        }
        Ok(Descriptor_Endpoint {
            length: b[0],
            desc_type: b[1],
            address: b[2],
            attributes: b[3],
            max_packet_size: (b[4], b[5]),
            max_polling_interval: b[6],
        })
    }
}

/// A descriptor decoded by its type byte.
#[derive(Debug)]
pub enum DescriptorAny<'a> {
    Unknown(&'a [u8]),
    Configuration(Descriptor_Configuration),
    Interface(Descriptor_Interface),
    Endpoint(Descriptor_Endpoint),
}

/// The decoding of descriptor bytes `b` by their type byte; `None` stands
/// for a parse error, and an unknown type is kept as raw bytes.
pub open spec fn descriptor_any_kind(b: Seq<u8>) -> Option<int> {
    if b.len() < 2 {
        None
    } else if b[1] == 2 {
        if b.len() == 10 { Some(2) } else { None }
    } else if b[1] == 4 {
        if b.len() == 9 { Some(4) } else { None }
    } else if b[1] == 5 {
        if b.len() == 7 { Some(5) } else { None }
    } else {
        Some(0)
    }
}

impl<'a> DescriptorAny<'a> {
    /// Decode a descriptor according to its type byte.
    pub fn from_bytes(b: &'a [u8]) -> (r: Result<Self, ParseError>)
        ensures
            descriptor_any_kind(b@) is None ==> r is Err,
            descriptor_any_kind(b@) == Some(0int) ==> (r matches Ok(DescriptorAny::Unknown(u))
                && u@ == b@),
            descriptor_any_kind(b@) == Some(2int) ==> r == Ok::<DescriptorAny, ParseError>(
                DescriptorAny::Configuration(configuration_descriptor_of(b@)),
            ),
            descriptor_any_kind(b@) == Some(4int) ==> r == Ok::<DescriptorAny, ParseError>(
                DescriptorAny::Interface(interface_descriptor_of(b@)),
            ),
            descriptor_any_kind(b@) == Some(5int) ==> r == Ok::<DescriptorAny, ParseError>(
                DescriptorAny::Endpoint(endpoint_descriptor_of(b@)),
            ),
    {
        if b.len() < 2 {
            return Err(ParseError);
        }
        let ty = b[1] as u16;
        if ty == 2 {
            match Descriptor_Configuration::from_bytes(b) {
                Ok(v) => Ok(DescriptorAny::Configuration(v)),
                Err(e) => Err(e),
            }
        } else if ty == 4 {
            match Descriptor_Interface::from_bytes(b) {
                Ok(v) => Ok(DescriptorAny::Interface(v)),
                Err(e) => Err(e),
            }
        } else if ty == 5 {
            match Descriptor_Endpoint::from_bytes(b) {
                Ok(v) => Ok(DescriptorAny::Endpoint(v)),
                Err(e) => Err(e),
            }
        } else {
            Ok(DescriptorAny::Unknown(b))
        }
    }
}

/// A control request (SETUP packet).
#[derive(Copy, Clone, Debug)]
pub struct DeviceRequest {
    pub req_type: u8,
    pub req_num: u8,
    pub value: u16,
    pub index: u16,
    pub length: u16,
}

/// The 8-byte SETUP packet for `r` (fields in little-endian order).
pub open spec fn device_request_bytes(r: DeviceRequest) -> Seq<u8> {
    seq![
        r.req_type, r.req_num,
        r.value as u8, (r.value >> 8) as u8,
        r.index as u8, (r.index >> 8) as u8,
        r.length as u8, (r.length >> 8) as u8,
    ]
}

impl DeviceRequest {
    /// Encode as the 8-byte SETUP packet.
    pub fn to_bytes(&self) -> (r: [u8; 8])
        ensures
            r@ == device_request_bytes(*self),
    {
        let r = [
            self.req_type,
            self.req_num,
            (self.value >> 0) as u8,
            (self.value >> 8) as u8,
            (self.index >> 0) as u8,
            (self.index >> 8) as u8,
            (self.length >> 0) as u8,
            (self.length >> 8) as u8,
        ];
        proof {
            let v = self.value;
            let i = self.index;
            let l = self.length;
            crate::bits::lemma_shr_zero(0, v, 0, 0);
            crate::bits::lemma_shr_zero(0, i, 0, 0);
            crate::bits::lemma_shr_zero(0, l, 0, 0);
            assert(r@ =~= device_request_bytes(*self));
        }
        r
    }
}

} // verus!
