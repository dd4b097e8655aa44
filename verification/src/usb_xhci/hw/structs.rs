//! Transfer request blocks (TRBs) and device contexts.
use vstd::prelude::*;

verus! {

/// The type field (bits 15:10 of the last word) of a TRB.
#[derive(Copy, Clone, Debug, PartialEq, Eq, Structural)]
pub enum TrbType {
    _Reserved,
    Normal,
    SetupStage,
    DataStage,
    StatusStage,
    Isoch,
    Link,
    EventData,
    NoOp,
    EnableSlotCommand,
    DisableSlotCommand,
    AddressDeviceCommand,
    ConfigureEndpointCommand,
    EvaluateContextCommand,
    ResetEndpointCommand,
    StopEndpointCommand,
    SetTrDequeuePointerCommand,
    ResetDeviceCommand,
    ForceEventCommand,
    NegotiateBandwidthCommand,
    SetLatencyToleranceValueCommand,
    GetPortBandwidthCommand,
    ForceHeaderCommand,
    NoOpCommand,
    GetExtendedPropertyCommand,
    SetExtendedPropertyCommand,
    TransferEvent,
    CommandCompletionEvent,
    PortStatusChangeEvent,
    BandwidthRequestEvent,
    DoorbellEvent,
    HostControllerEvent,
    DeviceNotificationEvent,
    MfindexWrapEvent,
}

/// Numeric code of a TRB type (0..=25 and 32..=39).
pub open spec fn trb_type_code(t: TrbType) -> u8 {
    match t {
        TrbType::_Reserved => 0,
        TrbType::Normal => 1,
        TrbType::SetupStage => 2,
        TrbType::DataStage => 3,
        TrbType::StatusStage => 4,
        TrbType::Isoch => 5,
        TrbType::Link => 6,
        TrbType::EventData => 7,
        TrbType::NoOp => 8,
        TrbType::EnableSlotCommand => 9,
        TrbType::DisableSlotCommand => 10,
        TrbType::AddressDeviceCommand => 11,
        TrbType::ConfigureEndpointCommand => 12,
        TrbType::EvaluateContextCommand => 13,
        TrbType::ResetEndpointCommand => 14,
        TrbType::StopEndpointCommand => 15,
        TrbType::SetTrDequeuePointerCommand => 16,
        TrbType::ResetDeviceCommand => 17,
        TrbType::ForceEventCommand => 18,
        TrbType::NegotiateBandwidthCommand => 19,
        TrbType::SetLatencyToleranceValueCommand => 20,
        TrbType::GetPortBandwidthCommand => 21,
        TrbType::ForceHeaderCommand => 22,
        TrbType::NoOpCommand => 23,
        TrbType::GetExtendedPropertyCommand => 24,
        TrbType::SetExtendedPropertyCommand => 25,
        TrbType::TransferEvent => 32,
        TrbType::CommandCompletionEvent => 33,
        TrbType::PortStatusChangeEvent => 34,
        TrbType::BandwidthRequestEvent => 35,
        TrbType::DoorbellEvent => 36,
        TrbType::HostControllerEvent => 37,
        TrbType::DeviceNotificationEvent => 38,
        TrbType::MfindexWrapEvent => 39,
    }
}

/// The TRB type with a given code, if the code is defined.
pub open spec fn trb_type_of_code(v: u8) -> Option<TrbType> {
    if v == 0 { Some(TrbType::_Reserved) }
    else if v == 1 { Some(TrbType::Normal) }
    else if v == 2 { Some(TrbType::SetupStage) }
    else if v == 3 { Some(TrbType::DataStage) }
    else if v == 4 { Some(TrbType::StatusStage) }
    else if v == 5 { Some(TrbType::Isoch) }
    else if v == 6 { Some(TrbType::Link) }
    else if v == 7 { Some(TrbType::EventData) }
    else if v == 8 { Some(TrbType::NoOp) }
    else if v == 9 { Some(TrbType::EnableSlotCommand) }
    else if v == 10 { Some(TrbType::DisableSlotCommand) }
    else if v == 11 { Some(TrbType::AddressDeviceCommand) }
    else if v == 12 { Some(TrbType::ConfigureEndpointCommand) }
    else if v == 13 { Some(TrbType::EvaluateContextCommand) }
    else if v == 14 { Some(TrbType::ResetEndpointCommand) }
    else if v == 15 { Some(TrbType::StopEndpointCommand) }
    else if v == 16 { Some(TrbType::SetTrDequeuePointerCommand) }
    else if v == 17 { Some(TrbType::ResetDeviceCommand) }
    else if v == 18 { Some(TrbType::ForceEventCommand) }
    else if v == 19 { Some(TrbType::NegotiateBandwidthCommand) }
    else if v == 20 { Some(TrbType::SetLatencyToleranceValueCommand) }
    else if v == 21 { Some(TrbType::GetPortBandwidthCommand) }
    else if v == 22 { Some(TrbType::ForceHeaderCommand) }
    else if v == 23 { Some(TrbType::NoOpCommand) }
    else if v == 24 { Some(TrbType::GetExtendedPropertyCommand) }
    else if v == 25 { Some(TrbType::SetExtendedPropertyCommand) }
    else if v == 32 { Some(TrbType::TransferEvent) }
    else if v == 33 { Some(TrbType::CommandCompletionEvent) }
    else if v == 34 { Some(TrbType::PortStatusChangeEvent) }
    else if v == 35 { Some(TrbType::BandwidthRequestEvent) }
    else if v == 36 { Some(TrbType::DoorbellEvent) }
    else if v == 37 { Some(TrbType::HostControllerEvent) }
    else if v == 38 { Some(TrbType::DeviceNotificationEvent) }
    else if v == 39 { Some(TrbType::MfindexWrapEvent) }
    else { None }
}

/// The 6-bit type field of a TRB's last word.
pub open spec fn word3_type_field(v: u32) -> u8 {
    ((v >> 10u32) & 63u32) as u8
}

/// The cycle bit as a word value.
pub open spec fn bool_bit(b: bool) -> u32 {
    if b { 1u32 } else { 0u32 }
}

/// Last word of a TRB of type `t`: the type in bits 15:10 and the cycle bit.
pub open spec fn trb_type_word3(t: TrbType, cycle: bool) -> u32 {
    ((trb_type_code(t) as u32) << 10u32) | bool_bit(cycle)
}

/// 0 or 1 for a flag.
pub fn bool_word(b: bool) -> (r: u32)
    ensures
        r == bool_bit(b),
{
    if b { 1 } else { 0 }
}

impl TrbType {
    /// Numeric code of this type.
    pub fn code(&self) -> (r: u8)
        ensures
            r == trb_type_code(*self),
            r < 64,
    {
        match self {
            TrbType::_Reserved => 0,
            TrbType::Normal => 1,
            TrbType::SetupStage => 2,
            TrbType::DataStage => 3,
            TrbType::StatusStage => 4,
            TrbType::Isoch => 5,
            TrbType::Link => 6,
            TrbType::EventData => 7,
            TrbType::NoOp => 8,
            TrbType::EnableSlotCommand => 9,
            TrbType::DisableSlotCommand => 10,
            TrbType::AddressDeviceCommand => 11,
            TrbType::ConfigureEndpointCommand => 12,
            TrbType::EvaluateContextCommand => 13,
            TrbType::ResetEndpointCommand => 14,
            TrbType::StopEndpointCommand => 15,
            TrbType::SetTrDequeuePointerCommand => 16,
            TrbType::ResetDeviceCommand => 17,
            TrbType::ForceEventCommand => 18,
            TrbType::NegotiateBandwidthCommand => 19,
            TrbType::SetLatencyToleranceValueCommand => 20,
            TrbType::GetPortBandwidthCommand => 21,
            TrbType::ForceHeaderCommand => 22,
            TrbType::NoOpCommand => 23,
            TrbType::GetExtendedPropertyCommand => 24,
            TrbType::SetExtendedPropertyCommand => 25,
            TrbType::TransferEvent => 32,
            TrbType::CommandCompletionEvent => 33,
            TrbType::PortStatusChangeEvent => 34,
            TrbType::BandwidthRequestEvent => 35,
            TrbType::DoorbellEvent => 36,
            TrbType::HostControllerEvent => 37,
            TrbType::DeviceNotificationEvent => 38,
            TrbType::MfindexWrapEvent => 39,
        }
    }

    /// The type with a given code.
    pub fn from_code(v: u8) -> (r: Option<TrbType>)
        ensures
            r == trb_type_of_code(v),
    {
        if v == 0 { Some(TrbType::_Reserved) }
        else if v == 1 { Some(TrbType::Normal) }
        else if v == 2 { Some(TrbType::SetupStage) }
        else if v == 3 { Some(TrbType::DataStage) }
        else if v == 4 { Some(TrbType::StatusStage) }
        else if v == 5 { Some(TrbType::Isoch) }
        else if v == 6 { Some(TrbType::Link) }
        else if v == 7 { Some(TrbType::EventData) }
        else if v == 8 { Some(TrbType::NoOp) }
        else if v == 9 { Some(TrbType::EnableSlotCommand) }
        else if v == 10 { Some(TrbType::DisableSlotCommand) }
        else if v == 11 { Some(TrbType::AddressDeviceCommand) }
        else if v == 12 { Some(TrbType::ConfigureEndpointCommand) }
        else if v == 13 { Some(TrbType::EvaluateContextCommand) }
        else if v == 14 { Some(TrbType::ResetEndpointCommand) }
        else if v == 15 { Some(TrbType::StopEndpointCommand) }
        else if v == 16 { Some(TrbType::SetTrDequeuePointerCommand) }
        else if v == 17 { Some(TrbType::ResetDeviceCommand) }
        else if v == 18 { Some(TrbType::ForceEventCommand) }
        else if v == 19 { Some(TrbType::NegotiateBandwidthCommand) }
        else if v == 20 { Some(TrbType::SetLatencyToleranceValueCommand) }
        else if v == 21 { Some(TrbType::GetPortBandwidthCommand) }
        else if v == 22 { Some(TrbType::ForceHeaderCommand) }
        else if v == 23 { Some(TrbType::NoOpCommand) }
        else if v == 24 { Some(TrbType::GetExtendedPropertyCommand) }
        else if v == 25 { Some(TrbType::SetExtendedPropertyCommand) }
        else if v == 32 { Some(TrbType::TransferEvent) }
        else if v == 33 { Some(TrbType::CommandCompletionEvent) }
        else if v == 34 { Some(TrbType::PortStatusChangeEvent) }
        else if v == 35 { Some(TrbType::BandwidthRequestEvent) }
        else if v == 36 { Some(TrbType::DoorbellEvent) }
        else if v == 37 { Some(TrbType::HostControllerEvent) }
        else if v == 38 { Some(TrbType::DeviceNotificationEvent) }
        else if v == 39 { Some(TrbType::MfindexWrapEvent) }
        else { None }
    }

    /// Decode the type field of a TRB's last word; an undefined code is
    /// returned as the error.
    pub fn from_trb_word3(v: u32) -> (r: Result<TrbType, u8>)
        ensures
            match trb_type_of_code(word3_type_field(v)) {
                Some(t) => r == Ok::<TrbType, u8>(t),
                None => r == Err::<TrbType, u8>(word3_type_field(v)),
            },
    {
        let c = ((v >> 10) & 63) as u8;
        match TrbType::from_code(c) {
            Some(t) => Ok(t),
            None => Err(c),
        }
    }

    /// Last word of a TRB of this type, with the given cycle bit.
    pub fn to_word3(self, cycle_bit: bool) -> (r: u32)
        ensures
            r == trb_type_word3(self, cycle_bit),
    {
        ((self.code() as u32) << 10) | bool_word(cycle_bit)
    }
}

/// Decoding the last word built for a type gives that type back, whatever
/// the cycle bit.
pub proof fn lemma_trb_type_word3_roundtrip(t: TrbType, cycle: bool)
    ensures
        trb_type_of_code(word3_type_field(trb_type_word3(t, cycle))) == Some(t),
{
    let c = trb_type_code(t);
    assert(c < 64);
    let b = bool_bit(cycle);
    assert(b <= 1);
    assert((((c as u32) << 10u32) | b) >> 10u32 & 63u32 == c as u32) by (bit_vector)
        requires
            c < 64,
            b <= 1,
    ;
}

/// Completion code reported in events.
#[derive(Copy, Clone, Debug, PartialEq, Eq, Structural)]
pub enum TrbCompletionCode {
    Invalid,
    Success,
    DataBufferError,
    BabbleDetectedError,
    UsbTransactionError,
    TrbError,
    StallError,
    ResourceError,
    BandwidthError,
}

/// The completion code with a given value, if it is one of the known ones.
pub open spec fn completion_code_of(v: u8) -> Option<TrbCompletionCode> {
    if v == 0 { Some(TrbCompletionCode::Invalid) }
    else if v == 1 { Some(TrbCompletionCode::Success) }
    else if v == 2 { Some(TrbCompletionCode::DataBufferError) }
    else if v == 3 { Some(TrbCompletionCode::BabbleDetectedError) }
    else if v == 4 { Some(TrbCompletionCode::UsbTransactionError) }
    else if v == 5 { Some(TrbCompletionCode::TrbError) }
    else if v == 6 { Some(TrbCompletionCode::StallError) }
    else if v == 7 { Some(TrbCompletionCode::ResourceError) }
    else if v == 8 { Some(TrbCompletionCode::BandwidthError) }
    else { None }
}

/// The known completion codes are the values 0 to 8, each naming a
/// different code, with the numbering of the xHCI specification: 1 is
/// success, 4 a USB transaction error, 6 a stall.
pub proof fn lemma_completion_codes(v: u8, w: u8)
    ensures
        completion_code_of(v) is Some <==> v <= 8,
        completion_code_of(v) is Some && completion_code_of(v) == completion_code_of(w) ==> v == w,
        completion_code_of(v) == Some(TrbCompletionCode::Success) <==> v == 1,
        completion_code_of(v) == Some(TrbCompletionCode::UsbTransactionError) <==> v == 4,
        completion_code_of(v) == Some(TrbCompletionCode::StallError) <==> v == 6,
{
}

impl TrbCompletionCode {
    /// Decode a completion code; an unknown value is returned as the error.
    pub fn from_u8(v: u8) -> (r: Result<TrbCompletionCode, u8>)
        ensures
            match completion_code_of(v) {
                Some(c) => r == Ok::<TrbCompletionCode, u8>(c),
                None => r == Err::<TrbCompletionCode, u8>(v),
            },
    {
        match v {
            0 => Ok(TrbCompletionCode::Invalid),
            1 => Ok(TrbCompletionCode::Success),
            2 => Ok(TrbCompletionCode::DataBufferError),
            3 => Ok(TrbCompletionCode::BabbleDetectedError),
            4 => Ok(TrbCompletionCode::UsbTransactionError),
            5 => Ok(TrbCompletionCode::TrbError),
            6 => Ok(TrbCompletionCode::StallError),
            7 => Ok(TrbCompletionCode::ResourceError),
            8 => Ok(TrbCompletionCode::BandwidthError),
            _ => Err(v),
        }
    }
}

/// A generic TRB: four little-endian words. Bit 0 of `word3` is the cycle
/// bit and bits 15:10 the type.
#[derive(Copy, Clone, Debug)]
pub struct Trb {
    pub word0: u32,
    pub word1: u32,
    pub word2: u32,
    pub word3: u32,
}

impl Trb {
    /// Replace the cycle bit.
    pub fn set_cycle(&mut self, cycle: bool)
        ensures
            final(self).word0 == old(self).word0,
            final(self).word1 == old(self).word1,
            final(self).word2 == old(self).word2,
            final(self).word3 == (old(self).word3 & !1u32) | bool_bit(cycle),
    {
        self.word3 = (self.word3 & !1u32) | bool_word(cycle);
    }
}

/// A link TRB, chaining ring segments together.
pub struct TrbLink {
    /// Next base address
    pub addr: u64,
    /// Target for an interrupt on completion
    pub interrupter_target: u16,
    /// Causes the controller to switch its cycle bit
    pub toggle_cycle: bool,
    pub chain: bool,
    /// Generate an interrupt when completed
    pub ioc: bool,
}

impl TrbLink {
    /// A link that loops a ring back around to `addr`.
    pub fn new_loopback(addr: u64) -> (r: TrbLink)
        ensures
            r == TrbLink::new_loopback_spec(addr),
    {
        TrbLink { addr, toggle_cycle: true, interrupter_target: 0, chain: false, ioc: false }
    }

    pub open spec fn new_loopback_spec(addr: u64) -> TrbLink {
        TrbLink { addr, toggle_cycle: true, interrupter_target: 0, chain: false, ioc: false }
    }

    pub open spec fn trb_spec(&self, cycle: bool) -> Trb {
        Trb {
            word0: self.addr as u32,
            word1: (self.addr >> 32u64) as u32,
            word2: (self.interrupter_target as u32) << 22u32,
            word3: trb_type_word3(TrbType::Link, cycle)
                | (bool_bit(self.toggle_cycle) << 1u32)
                | (bool_bit(self.chain) << 4u32)
                | (bool_bit(self.ioc) << 5u32),
        }
    }

    /// Encode as a TRB.
    pub fn into_trb(self, cycle: bool) -> (r: Trb)
        ensures
            r == self.trb_spec(cycle),
    {
        Trb {
            word0: self.addr as u32,
            word1: (self.addr >> 32) as u32,
            word2: (self.interrupter_target as u32) << 22,
            word3: TrbType::Link.to_word3(cycle)
                | (bool_word(self.toggle_cycle) << 1)
                | (bool_word(self.chain) << 4)
                | (bool_word(self.ioc) << 5),
        }
    }
}

/// The 64-bit value of two words (low word first).
pub open spec fn words_u64(word0: u32, word1: u32) -> u64 {
    (word0 as u64) | ((word1 as u64) << 32u64)
}

/// Byte `i` (little-endian) of a 64-bit value.
pub open spec fn le_byte(v: u64, i: int) -> u8 {
    (v >> ((8 * i) as u64)) as u8
}

/// The 32-bit little-endian value of four bytes.
pub open spec fn le_u32(b0: u8, b1: u8, b2: u8, b3: u8) -> u32 {
    (b0 as u32) | ((b1 as u32) << 8u32) | ((b2 as u32) << 16u32) | ((b3 as u32) << 24u32)
}

/// Data field of a normal TRB.
#[derive(Copy, Clone, Debug)]
pub enum TrbNormalData {
    /// A hardware pointer
    Pointer(u64),
    /// Up to eight bytes of data carried in the TRB itself
    InlineData([u8; 8]),
}

/// The data field decoded from two words: inline bytes when `ed` is set.
pub open spec fn normal_data_of_words(ed: bool, word0: u32, word1: u32, d: TrbNormalData) -> bool {
    let v = words_u64(word0, word1);
    match d {
        TrbNormalData::Pointer(p) => !ed && p == v,
        TrbNormalData::InlineData(a) => ed && forall|i: int| 0 <= i < 8 ==> a[i] == le_byte(v, i),
    }
}

/// First word of the encoded data field.
pub open spec fn normal_data_word0(d: TrbNormalData) -> u32 {
    match d {
        TrbNormalData::Pointer(v) => v as u32,
        TrbNormalData::InlineData(a) => le_u32(a[0], a[1], a[2], a[3]),
    }
}

/// Second word of the encoded data field.
pub open spec fn normal_data_word1(d: TrbNormalData) -> u32 {
    match d {
        TrbNormalData::Pointer(v) => (v >> 32u64) as u32,
        TrbNormalData::InlineData(a) => le_u32(a[4], a[5], a[6], a[7]),
    }
}

pub open spec fn normal_data_immediate(d: TrbNormalData) -> bool {
    d is InlineData
}

impl TrbNormalData {
    /// Decode the data field from the first two words of a TRB.
    pub fn from_words(ed: bool, word0: u32, word1: u32) -> (r: TrbNormalData)
        ensures
            normal_data_of_words(ed, word0, word1, r),
    {
        let v: u64 = (word0 as u64) | ((word1 as u64) << 32);
        if ed {
            let a: [u8; 8] = [
                v as u8,
                (v >> 8) as u8,
                (v >> 16) as u8,
                (v >> 24) as u8,
                (v >> 32) as u8,
                (v >> 40) as u8,
                (v >> 48) as u8,
                (v >> 56) as u8,
            ];
            proof {
                assert forall|i: int| 0 <= i < 8 implies a[i] == le_byte(v, i) by {
                    crate::bits::lemma_shr_zero(0, 0, 0, v);
                }
            }
            TrbNormalData::InlineData(a)
        } else {
            TrbNormalData::Pointer(v)
        }
    }

    /// Inline data holding `input` padded with zeros, when it fits in eight bytes.
    pub fn make_inline(input: &[u8]) -> (r: Option<TrbNormalData>)
        ensures
            input.len() <= 8 <==> r is Some,
            r matches Some(TrbNormalData::InlineData(a)) ==> (forall|i: int|
                0 <= i < 8 ==> a[i] == (if i < input.len() { input[i] } else { 0u8 })),
            r matches Some(d) ==> d is InlineData,
    {
        if input.len() <= 8 {
            let mut data = [0u8; 8];
            let n = input.len();
            let mut i: usize = 0;
            while i < n
                invariant
                    n == input.len(),
                    n <= 8,
                    i <= n,
                    forall|j: int| 0 <= j < 8 ==> data[j] == (if j < i { input[j] } else { 0u8 }),
                decreases n - i,
            {
                data[i] = input[i];
                i += 1;
            }
            Some(TrbNormalData::InlineData(data))
        } else {
            None
        }
    }

    /// First word of the encoded data field.
    pub fn to_word0(&self) -> (r: u32)
        ensures
            r == normal_data_word0(*self),
    {
        match *self {
            TrbNormalData::Pointer(v) => v as u32,
            TrbNormalData::InlineData(a) => (a[0] as u32) | ((a[1] as u32) << 8) | ((a[2] as u32)
                << 16) | ((a[3] as u32) << 24),
        }
    }

    /// Second word of the encoded data field.
    pub fn to_word1(&self) -> (r: u32)
        ensures
            r == normal_data_word1(*self),
    {
        match *self {
            TrbNormalData::Pointer(v) => (v >> 32) as u32,
            TrbNormalData::InlineData(a) => (a[4] as u32) | ((a[5] as u32) << 8) | ((a[6] as u32)
                << 16) | ((a[7] as u32) << 24),
        }
    }

    /// The field carries the data itself rather than a pointer.
    pub fn is_immediate(&self) -> (r: bool)
        ensures
            r == normal_data_immediate(*self),
    {
        match *self {
            TrbNormalData::Pointer(_) => false,
            TrbNormalData::InlineData(_) => true,
        }
    }
}

/// Encoding a data field decoded from two words gives the two words back.
pub proof fn lemma_normal_data_roundtrip(ed: bool, word0: u32, word1: u32, d: TrbNormalData)
    requires
        normal_data_of_words(ed, word0, word1, d),
    ensures
        normal_data_word0(d) == word0,
        normal_data_word1(d) == word1,
        normal_data_immediate(d) == ed,
{
    let v = words_u64(word0, word1);
    match d {
        TrbNormalData::Pointer(p) => {
            assert((((word0 as u64) | ((word1 as u64) << 32u64)) as u32) == word0
                && ((((word0 as u64) | ((word1 as u64) << 32u64)) >> 32u64) as u32) == word1) by (bit_vector);
        },
        TrbNormalData::InlineData(a) => {
            assert(a[0] == le_byte(v, 0));
            assert(a[1] == le_byte(v, 1));
            assert(a[2] == le_byte(v, 2));
            assert(a[3] == le_byte(v, 3));
            assert(a[4] == le_byte(v, 4));
            assert(a[5] == le_byte(v, 5));
            assert(a[6] == le_byte(v, 6));
            assert(a[7] == le_byte(v, 7));
            assert(le_u32(
                (v >> 0u64) as u8,
                (v >> 8u64) as u8,
                (v >> 16u64) as u8,
                (v >> 24u64) as u8,
            ) == word0 && le_u32(
                (v >> 32u64) as u8,
                (v >> 40u64) as u8,
                (v >> 48u64) as u8,
                (v >> 56u64) as u8,
            ) == word1) by (bit_vector)
                requires
                    v == (word0 as u64) | ((word1 as u64) << 32u64),
            ;
        },
    }
}

/// Word 2 of a transfer TRB: length (17 bits), TD size (5 bits), interrupter.
pub open spec fn transfer_word2(transfer_length: u32, td_size: u8, interrupter_target: u16) -> u32 {
    (transfer_length & 0x1FFFFu32) | (((td_size as u32) & 0x1Fu32) << 17u32) | ((
    interrupter_target as u32) << 22u32)
}

fn make_transfer_word2(transfer_length: u32, td_size: u8, interrupter_target: u16) -> (r: u32)
    ensures
        r == transfer_word2(transfer_length, td_size, interrupter_target),
{
    (transfer_length & 0x1FFFF) | (((td_size as u32) & 0x1F) << 17) | ((interrupter_target as u32)
        << 22)
}

/// A "Normal" TRB, used for bulk and interrupt endpoints.
#[derive(Debug)]
pub struct TrbNormal {
    pub data: TrbNormalData,
    /// 17 bits
    pub transfer_length: u32,
    /// 5 bits
    pub td_size: u8,
    pub interrupter_target: u16,
    /// The controller should evaluate the next TRB before saving state
    pub evaluate_next_trb: bool,
    /// Force an interrupt if a short packet is encountered
    pub interrupt_on_short_packet: bool,
    pub no_snoop: bool,
    /// Associate this TRB with the next TRB in the ring
    pub chain_bit: bool,
    /// Interrupt On Completion
    pub ioc: bool,
    pub block_event_interrupt: bool,
}

impl TrbNormal {
    pub open spec fn trb_spec(&self, cycle: bool) -> Trb {
        Trb {
            word0: normal_data_word0(self.data),
            word1: normal_data_word1(self.data),
            word2: transfer_word2(self.transfer_length, self.td_size, self.interrupter_target),
            word3: trb_type_word3(TrbType::Normal, cycle)
                | (bool_bit(self.evaluate_next_trb) << 1u32)
                | (bool_bit(self.interrupt_on_short_packet) << 2u32)
                | (bool_bit(self.no_snoop) << 3u32)
                | (bool_bit(self.chain_bit) << 4u32)
                | (bool_bit(self.ioc) << 5u32)
                | (bool_bit(normal_data_immediate(self.data)) << 6u32)
                | (bool_bit(self.block_event_interrupt) << 9u32),
        }
    }

    /// Encode as a TRB.
    pub fn into_trb(self, cycle: bool) -> (r: Trb)
        ensures
            r == self.trb_spec(cycle),
    {
        Trb {
            word0: self.data.to_word0(),
            word1: self.data.to_word1(),
            word2: make_transfer_word2(self.transfer_length, self.td_size, self.interrupter_target),
            word3: TrbType::Normal.to_word3(cycle)
                | (bool_word(self.evaluate_next_trb) << 1)
                | (bool_word(self.interrupt_on_short_packet) << 2)
                | (bool_word(self.no_snoop) << 3)
                | (bool_word(self.chain_bit) << 4)
                | (bool_word(self.ioc) << 5)
                | (bool_word(self.data.is_immediate()) << 6)
                | (bool_word(self.block_event_interrupt) << 9),
        }
    }
}

/// Transfer type field of a SETUP TRB.
#[derive(Copy, Clone, Debug, PartialEq, Eq, Structural)]
pub enum TrbControlSetupTransferType {
    NoData,
    _Reserved,
    Out,
    In,
}

pub open spec fn setup_transfer_type_code(t: TrbControlSetupTransferType) -> u32 {
    match t {
        TrbControlSetupTransferType::NoData => 0,
        TrbControlSetupTransferType::_Reserved => 1,
        TrbControlSetupTransferType::Out => 2,
        TrbControlSetupTransferType::In => 3,
    }
}

impl TrbControlSetupTransferType {
    /// Numeric value of the field.
    pub fn code(&self) -> (r: u32)
        ensures
            r == setup_transfer_type_code(*self),
    {
        match self {
            TrbControlSetupTransferType::NoData => 0,
            TrbControlSetupTransferType::_Reserved => 1,
            TrbControlSetupTransferType::Out => 2,
            TrbControlSetupTransferType::In => 3,
        }
    }
}

/// TRB for a SETUP packet.
pub struct TrbControlSetup {
    pub bm_request_type: u8,
    pub b_request: u8,
    pub w_value: u16,
    pub w_index: u16,
    pub w_length: u16,
    pub trb_transfer_length: u32,
    pub interupter_target: u8,
    pub ioc: bool,
    pub idt: bool,
    pub transfer_type: TrbControlSetupTransferType,
}

impl TrbControlSetup {
    pub open spec fn trb_spec(&self, cycle: bool) -> Trb {
        Trb {
            word0: (self.bm_request_type as u32) | ((self.b_request as u32) << 8u32) | ((
            self.w_value as u32) << 16u32),
            word1: (self.w_index as u32) | ((self.w_length as u32) << 16u32),
            word2: (self.trb_transfer_length & 0x1FFFFu32) | ((self.interupter_target as u32)
                << 22u32),
            word3: trb_type_word3(TrbType::SetupStage, cycle)
                | (bool_bit(self.ioc) << 5u32)
                | (bool_bit(self.idt) << 6u32)
                | (setup_transfer_type_code(self.transfer_type) << 16u32),
        }
    }

    /// Encode as a TRB.
    pub fn into_trb(self, cycle: bool) -> (r: Trb)
        ensures
            r == self.trb_spec(cycle),
    {
        Trb {
            word0: (self.bm_request_type as u32) | ((self.b_request as u32) << 8) | ((
            self.w_value as u32) << 16),
            word1: (self.w_index as u32) | ((self.w_length as u32) << 16),
            word2: (self.trb_transfer_length & 0x1FFFF) | ((self.interupter_target as u32) << 22),
            word3: TrbType::SetupStage.to_word3(cycle)
                | (bool_word(self.ioc) << 5)
                | (bool_word(self.idt) << 6)
                | (self.transfer_type.code() << 16),
        }
    }
}

/// TRB for the data stage of a control transfer.
pub struct TrbControlData {
    pub data: TrbNormalData,
    /// Length of the data (17 bits)
    pub trb_transfer_length: u32,
    /// 5 bits
    pub td_size: u8,
    pub interrupter_target: u16,
    pub evaluate_next_trb: bool,
    pub interrupt_on_short_packet: bool,
    pub no_snoop: bool,
    pub chain_bit: bool,
    pub ioc: bool,
    /// Direction of the transfer
    pub direction_in: bool,
}

impl TrbControlData {
    pub open spec fn trb_spec(&self, cycle: bool) -> Trb {
        Trb {
            word0: normal_data_word0(self.data),
            word1: normal_data_word1(self.data),
            word2: transfer_word2(self.trb_transfer_length, self.td_size, self.interrupter_target),
            word3: trb_type_word3(TrbType::DataStage, cycle)
                | (bool_bit(self.evaluate_next_trb) << 1u32)
                | (bool_bit(self.interrupt_on_short_packet) << 2u32)
                | (bool_bit(self.no_snoop) << 3u32)
                | (bool_bit(self.chain_bit) << 4u32)
                | (bool_bit(self.ioc) << 5u32)
                | (bool_bit(normal_data_immediate(self.data)) << 6u32)
                | (bool_bit(self.direction_in) << 16u32),
        }
    }

    /// Encode as a TRB.
    pub fn into_trb(self, cycle: bool) -> (r: Trb)
        ensures
            r == self.trb_spec(cycle),
    {
        Trb {
            word0: self.data.to_word0(),
            word1: self.data.to_word1(),
            word2: make_transfer_word2(
                self.trb_transfer_length,
                self.td_size,
                self.interrupter_target,
            ),
            word3: TrbType::DataStage.to_word3(cycle)
                | (bool_word(self.evaluate_next_trb) << 1)
                | (bool_word(self.interrupt_on_short_packet) << 2)
                | (bool_word(self.no_snoop) << 3)
                | (bool_word(self.chain_bit) << 4)
                | (bool_word(self.ioc) << 5)
                | (bool_word(self.data.is_immediate()) << 6)
                | (bool_word(self.direction_in) << 16),
        }
    }
}

/// TRB for the status stage of a control transfer.
pub struct TrbControlStatus {
    pub interrupter_target: u16,
    pub evaluate_next_trb: bool,
    pub ioc: bool,
    pub direction_in: bool,
}

impl TrbControlStatus {
    pub open spec fn trb_spec(&self, cycle: bool) -> Trb {
        Trb {
            word0: 0,
            word1: 0,
            word2: (self.interrupter_target as u32) << 22u32,
            word3: trb_type_word3(TrbType::StatusStage, cycle)
                | (bool_bit(self.evaluate_next_trb) << 1u32)
                | (bool_bit(self.ioc) << 5u32)
                | (bool_bit(self.direction_in) << 16u32),
        }
    }

    /// Encode as a TRB.
    pub fn into_trb(self, cycle: bool) -> (r: Trb)
        ensures
            r == self.trb_spec(cycle),
    {
        Trb {
            word0: 0,
            word1: 0,
            word2: (self.interrupter_target as u32) << 22,
            word3: TrbType::StatusStage.to_word3(cycle)
                | (bool_word(self.evaluate_next_trb) << 1)
                | (bool_word(self.ioc) << 5)
                | (bool_word(self.direction_in) << 16),
        }
    }
}

/// Input control context: which device-context entries a command drops and adds.
#[derive(Copy, Clone, Debug)]
pub struct InputControlContext {
    /// Bitmap of device context entries to be disabled by this command
    pub drop_context_flags: u32,
    /// Bitmap of device context entries to be added/enabled
    pub add_context_flags: u32,
    pub _resvd: [u32; 5],
    pub configuration_value: u8,
    pub interface_number: u8,
    pub alternate_setting: u8,
    pub _resvd2: u8,
}

impl InputControlContext {
    /// A context with every field zero.
    pub fn zeroed() -> (r: InputControlContext)
        ensures
            r.drop_context_flags == 0,
            r.add_context_flags == 0,
            r.configuration_value == 0,
            r.interface_number == 0,
            r.alternate_setting == 0,
            forall|i: int| 0 <= i < 5 ==> r._resvd[i] == 0,
            r._resvd2 == 0,
    {
        InputControlContext {
            drop_context_flags: 0,
            add_context_flags: 0,
            _resvd: [0u32; 5],
            configuration_value: 0,
            interface_number: 0,
            alternate_setting: 0,
            _resvd2: 0,
        }
    }
}

/// Header of a device context.
///
/// `word0`: 19:0 route string, 23:20 speed, 25 multi-TT, 26 hub, 31:27 context entries.
/// `word1`: 15:0 max exit latency, 23:16 root hub port number.
/// `word2`: 7:0 parent hub slot, 15:8 parent port (for split transactions).
#[derive(Copy, Clone, Debug)]
pub struct SlotContext {
    pub word0: u32,
    pub word1: u32,
    pub word2: u32,
    pub word3: u32,
    pub _resvd: [u32; 4],
}

impl SlotContext {
    /// A slot context with the given first four words.
    pub fn new(words: [u32; 4]) -> (r: SlotContext)
        ensures
            r.word0 == words[0],
            r.word1 == words[1],
            r.word2 == words[2],
            r.word3 == words[3],
            forall|i: int| 0 <= i < 4 ==> r._resvd[i] == 0,
    {
        SlotContext {
            word0: words[0],
            word1: words[1],
            word2: words[2],
            word3: words[3],
            _resvd: [0u32; 4],
        }
    }
}

/// Endpoint type field of an endpoint context.
#[derive(Copy, Clone, Debug, PartialEq, Eq, Structural)]
pub enum EndpointType {
    _Reserved,
    IsochOut,
    BulkOut,
    _InterruptOut,
    Control,
    IsochIn,
    BulkIn,
    InterruptIn,
}

pub open spec fn endpoint_type_code(t: EndpointType) -> u32 {
    match t {
        EndpointType::_Reserved => 0,
        EndpointType::IsochOut => 1,
        EndpointType::BulkOut => 2,
        EndpointType::_InterruptOut => 3,
        EndpointType::Control => 4,
        EndpointType::IsochIn => 5,
        EndpointType::BulkIn => 6,
        EndpointType::InterruptIn => 7,
    }
}

impl EndpointType {
    /// Numeric value of the field.
    pub fn code(&self) -> (r: u32)
        ensures
            r == endpoint_type_code(*self),
    {
        match self {
            EndpointType::_Reserved => 0,
            EndpointType::IsochOut => 1,
            EndpointType::BulkOut => 2,
            EndpointType::_InterruptOut => 3,
            EndpointType::Control => 4,
            EndpointType::IsochIn => 5,
            EndpointType::BulkIn => 6,
            EndpointType::InterruptIn => 7,
        }
    }
}

/// Endpoint context.
///
/// `word1`: 2:1 error count, 5:3 endpoint type, 15:8 max burst, 31:16 max packet size.
/// `tr_dequeue_ptr`: bit 0 dequeue cycle state, 63:4 ring pointer.
#[derive(Copy, Clone, Debug)]
pub struct EndpointContext {
    pub word0: u32,
    pub word1: u32,
    pub tr_dequeue_ptr: u64,
    pub word4: u32,
    pub _resvd: [u32; 3],
}

/// `word1` of an endpoint context of type `ty` and the given packet size.
pub open spec fn endpoint_word1(ty: EndpointType, max_packet_size: u16) -> u32 {
    ((max_packet_size as u32) << 16u32) | (endpoint_type_code(ty) << 3u32)
}

impl EndpointContext {
    /// A context with every field zero.
    pub fn zeroed() -> (r: EndpointContext)
        ensures
            r.word0 == 0,
            r.word1 == 0,
            r.tr_dequeue_ptr == 0,
            r.word4 == 0,
            forall|i: int| 0 <= i < 3 ==> r._resvd[i] == 0,
    {
        EndpointContext { word0: 0, word1: 0, tr_dequeue_ptr: 0, word4: 0, _resvd: [0u32; 3] }
    }

    /// Set the endpoint type and the max packet size (the rest of word 1 is cleared).
    pub fn set_word1(&mut self, ty: EndpointType, max_packet_size: u16)
        ensures
            final(self).word1 == endpoint_word1(ty, max_packet_size),
            final(self).word0 == old(self).word0,
            final(self).tr_dequeue_ptr == old(self).tr_dequeue_ptr,
            final(self).word4 == old(self).word4,
            final(self)._resvd == old(self)._resvd,
    {
        self.word1 = ((max_packet_size as u32) << 16) | (ty.code() << 3);
    }
}

/// Complete input context: control, slot and the 31 endpoint contexts.
pub struct AddrInputContext {
    pub ctrl: InputControlContext,
    pub slot: SlotContext,
    pub eps: [EndpointContext; 31],
}

} // verus!
