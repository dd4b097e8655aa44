//! Command TRBs.
use vstd::prelude::*;
use crate::usb_xhci::hw::structs::{Trb, TrbType, trb_type_word3, bool_bit, bool_word};

verus! {

/// Slot in bits 31:24 of the last word.
pub open spec fn slot_field(slot_idx: u8) -> u32 {
    (slot_idx as u32) << 24u32
}

/// Endpoint in bits 20:16 of the last word.
pub open spec fn endpoint_field(endpoint_id: u8) -> u32 {
    (endpoint_id as u32) << 16u32
}

/// Low word of a 16-byte aligned context pointer.
pub open spec fn context_ptr_low(p: u64) -> u32 {
    (p & 0xFFFF_FFF0u64) as u32
}

pub open spec fn ptr_high(p: u64) -> u32 {
    (p >> 32u64) as u32
}

/// A TRB with only the last word set.
pub open spec fn trb_word3_only(word3: u32) -> Trb {
    Trb { word0: 0, word1: 0, word2: 0, word3 }
}

/// No-operation command: only emits a "command complete" event.
#[derive(Debug)]
pub struct Nop;

impl Nop {
    /// Encode as a TRB.
    pub fn into_trb(self, cycle: bool) -> (r: Trb)
        ensures
            r == trb_word3_only(trb_type_word3(TrbType::NoOpCommand, cycle)),
    {
        Trb { word0: 0, word1: 0, word2: 0, word3: TrbType::NoOpCommand.to_word3(cycle) }
    }
}

/// Allocate a new device slot.
#[derive(Debug)]
pub struct EnableSlot;

impl EnableSlot {
    /// Encode as a TRB.
    pub fn into_trb(self, cycle: bool) -> (r: Trb)
        ensures
            r == trb_word3_only(trb_type_word3(TrbType::EnableSlotCommand, cycle)),
    {
        Trb { word0: 0, word1: 0, word2: 0, word3: TrbType::EnableSlotCommand.to_word3(cycle) }
    }
}

/// Release a device slot.
#[derive(Debug)]
pub struct DisableSlot(pub u8);

impl DisableSlot {
    pub fn _new(slot_idx: u8) -> (r: DisableSlot)
        ensures
            r.0 == slot_idx,
    {
        DisableSlot(slot_idx)
    }

    /// Encode as a TRB.
    pub fn into_trb(self, cycle: bool) -> (r: Trb)
        ensures
            r == trb_word3_only(
                slot_field(self.0) | trb_type_word3(TrbType::DisableSlotCommand, cycle),
            ),
    {
        Trb {
            word0: 0,
            word1: 0,
            word2: 0,
            word3: ((self.0 as u32) << 24) | TrbType::DisableSlotCommand.to_word3(cycle),
        }
    }
}

/// Address the device currently at address zero, using a slot.
#[derive(Debug)]
pub struct AddressDevice {
    /// Slot to be used for this device
    pub slot_idx: u8,
    /// Pointer to the input context
    pub input_context_pointer: u64,
    /// Do everything but send SET_ADDRESS on the bus
    pub block_set_address: bool,
}

impl AddressDevice {
    pub fn new(slot_idx: u8, input_context_pointer: u64, block_set_address: bool) -> (r:
        AddressDevice)
        ensures
            r.slot_idx == slot_idx,
            r.input_context_pointer == input_context_pointer,
            r.block_set_address == block_set_address,
    {
        AddressDevice { slot_idx, input_context_pointer, block_set_address }
    }

    /// Encode as a TRB.
    pub fn into_trb(self, cycle: bool) -> (r: Trb)
        ensures
            r == (Trb {
                word0: context_ptr_low(self.input_context_pointer),
                word1: ptr_high(self.input_context_pointer),
                word2: 0,
                word3: slot_field(self.slot_idx) | (bool_bit(self.block_set_address) << 9u32)
                    | trb_type_word3(TrbType::AddressDeviceCommand, cycle),
            }),
    {
        Trb {
            word0: (self.input_context_pointer & 0xFFFF_FFF0) as u32,
            word1: (self.input_context_pointer >> 32) as u32,
            word2: 0,
            word3: ((self.slot_idx as u32) << 24) | (bool_word(self.block_set_address) << 9)
                | TrbType::AddressDeviceCommand.to_word3(cycle),
        }
    }
}

/// Configure (or deconfigure) the endpoints of a slot.
#[derive(Debug)]
pub struct ConfigureEndpoint {
    pub slot_idx: u8,
    pub input_context_pointer: u64,
    /// Drop all endpoints
    pub deconfigure: bool,
}

impl ConfigureEndpoint {
    pub fn new_configure(slot_idx: u8, input_context_pointer: u64) -> (r: ConfigureEndpoint)
        ensures
            r.slot_idx == slot_idx,
            r.input_context_pointer == input_context_pointer,
            !r.deconfigure,
    {
        ConfigureEndpoint { slot_idx, input_context_pointer, deconfigure: false }
    }

    /// Encode as a TRB.
    pub fn into_trb(self, cycle: bool) -> (r: Trb)
        ensures
            r == (Trb {
                word0: context_ptr_low(self.input_context_pointer),
                word1: ptr_high(self.input_context_pointer),
                word2: 0,
                word3: slot_field(self.slot_idx) | (bool_bit(self.deconfigure) << 9u32)
                    | trb_type_word3(TrbType::ConfigureEndpointCommand, cycle),
            }),
    {
        Trb {
            word0: (self.input_context_pointer & 0xFFFF_FFF0) as u32,
            word1: (self.input_context_pointer >> 32) as u32,
            word2: 0,
            word3: ((self.slot_idx as u32) << 24) | (bool_word(self.deconfigure) << 9)
                | TrbType::ConfigureEndpointCommand.to_word3(cycle),
        }
    }
}

/// Tell the controller that fields of a device context changed.
#[derive(Debug)]
pub struct EvaluateContext {
    pub slot_idx: u8,
    pub input_context_pointer: u64,
}

impl EvaluateContext {
    pub fn _new(slot_idx: u8, input_context_pointer: u64) -> (r: EvaluateContext)
        ensures
            r.slot_idx == slot_idx,
            r.input_context_pointer == input_context_pointer,
    {
        EvaluateContext { slot_idx, input_context_pointer }
    }

    /// Encode as a TRB.
    pub fn into_trb(self, cycle: bool) -> (r: Trb)
        ensures
            r == (Trb {
                word0: context_ptr_low(self.input_context_pointer),
                word1: ptr_high(self.input_context_pointer),
                word2: 0,
                word3: slot_field(self.slot_idx) | trb_type_word3(
                    TrbType::EvaluateContextCommand,
                    cycle,
                ),
            }),
    {
        Trb {
            word0: (self.input_context_pointer & 0xFFFF_FFF0) as u32,
            word1: (self.input_context_pointer >> 32) as u32,
            word2: 0,
            word3: ((self.slot_idx as u32) << 24) | TrbType::EvaluateContextCommand.to_word3(cycle),
        }
    }
}

/// Recover an endpoint from a halted condition.
#[derive(Debug)]
pub struct ResetEndpoint {
    pub slot_idx: u8,
    pub endpoint_id: u8,
    /// Preserve the transfer state, re-attempting the last transfer
    pub transfer_state_preserve: bool,
}

impl ResetEndpoint {
    /// Encode as a TRB.
    pub fn into_trb(self, cycle: bool) -> (r: Trb)
        ensures
            r == trb_word3_only(
                slot_field(self.slot_idx) | endpoint_field(self.endpoint_id) | (bool_bit(
                    self.transfer_state_preserve,
                ) << 9u32) | trb_type_word3(TrbType::ResetEndpointCommand, cycle),
            ),
    {
        Trb {
            word0: 0,
            word1: 0,
            word2: 0,
            word3: ((self.slot_idx as u32) << 24) | ((self.endpoint_id as u32) << 16) | (
            bool_word(self.transfer_state_preserve) << 9) | TrbType::ResetEndpointCommand.to_word3(
                cycle,
            ),
        }
    }
}

/// Stop all transfers on an endpoint.
#[derive(Debug)]
pub struct StopEndpoint {
    pub slot_idx: u8,
    pub endpoint_id: u8,
}

impl StopEndpoint {
    /// Encode as a TRB.
    pub fn into_trb(self, cycle: bool) -> (r: Trb)
        ensures
            r == trb_word3_only(
                slot_field(self.slot_idx) | endpoint_field(self.endpoint_id) | trb_type_word3(
                    TrbType::StopEndpointCommand,
                    cycle,
                ),
            ),
    {
        Trb {
            word0: 0,
            word1: 0,
            word2: 0,
            word3: ((self.slot_idx as u32) << 24) | ((self.endpoint_id as u32) << 16)
                | TrbType::StopEndpointCommand.to_word3(cycle),
        }
    }
}

/// Stream context type of a dequeue pointer.
#[derive(Copy, Clone, Debug, PartialEq, Eq, Structural)]
pub enum StreamContextType {
    SecondaryTransferRing,
    PrimaryTransferRing,
    PrimarySsa8,
    PrimarySsa16,
    PrimarySsa32,
    PrimarySsa64,
    PrimarySsa128,
    PrimarySsa256,
}

pub open spec fn stream_context_type_code(t: StreamContextType) -> u32 {
    match t {
        StreamContextType::SecondaryTransferRing => 0,
        StreamContextType::PrimaryTransferRing => 1,
        StreamContextType::PrimarySsa8 => 2,
        StreamContextType::PrimarySsa16 => 3,
        StreamContextType::PrimarySsa32 => 4,
        StreamContextType::PrimarySsa64 => 5,
        StreamContextType::PrimarySsa128 => 6,
        StreamContextType::PrimarySsa256 => 7,
    }
}

impl StreamContextType {
    /// Numeric value of the field.
    pub fn code(&self) -> (r: u32)
        ensures
            r == stream_context_type_code(*self),
    {
        match self {
            StreamContextType::SecondaryTransferRing => 0,
            StreamContextType::PrimaryTransferRing => 1,
            StreamContextType::PrimarySsa8 => 2,
            StreamContextType::PrimarySsa16 => 3,
            StreamContextType::PrimarySsa32 => 4,
            StreamContextType::PrimarySsa64 => 5,
            StreamContextType::PrimarySsa128 => 6,
            StreamContextType::PrimarySsa256 => 7,
        }
    }
}

/// Move the dequeue pointer of an endpoint's transfer ring.
#[derive(Debug)]
pub struct SetTrDequeuePointer {
    pub slot_idx: u8,
    pub endpoint_id: u8,
    pub stream_id: u16,
    pub new_dequeue_pointer: u64,
    pub cycle: bool,
    pub stream_context_type: StreamContextType,
}

impl SetTrDequeuePointer {
    pub fn _new_bare(slot_idx: u8, endpoint_id: u8, new_dequeue_pointer: u64, cycle: bool) -> (r:
        SetTrDequeuePointer)
        ensures
            r.slot_idx == slot_idx,
            r.endpoint_id == endpoint_id,
            r.new_dequeue_pointer == new_dequeue_pointer,
            r.cycle == cycle,
            r.stream_id == 0,
            r.stream_context_type == StreamContextType::SecondaryTransferRing,
    {
        SetTrDequeuePointer {
            slot_idx,
            endpoint_id,
            new_dequeue_pointer,
            cycle,
            stream_id: 0,
            stream_context_type: StreamContextType::SecondaryTransferRing,
        }
    }

    pub fn _new_streamed(
        slot_idx: u8,
        endpoint_id: u8,
        stream_id: u16,
        sct: StreamContextType,
        new_dequeue_pointer: u64,
        cycle: bool,
    ) -> (r: SetTrDequeuePointer)
        ensures
            r.slot_idx == slot_idx,
            r.endpoint_id == endpoint_id,
            r.new_dequeue_pointer == new_dequeue_pointer,
            r.cycle == cycle,
            r.stream_id == stream_id,
            r.stream_context_type == sct,
    {
        SetTrDequeuePointer {
            slot_idx,
            endpoint_id,
            new_dequeue_pointer,
            cycle,
            stream_id,
            stream_context_type: sct,
        }
    }

    /// Encode as a TRB.
    pub fn into_trb(self, cycle: bool) -> (r: Trb)
        ensures
            r == (Trb {
                word0: context_ptr_low(self.new_dequeue_pointer) | (stream_context_type_code(
                    self.stream_context_type,
                ) << 1u32) | bool_bit(self.cycle),
                word1: ptr_high(self.new_dequeue_pointer),
                word2: (self.stream_id as u32) << 16u32,
                word3: slot_field(self.slot_idx) | endpoint_field(self.endpoint_id)
                    | trb_type_word3(TrbType::SetTrDequeuePointerCommand, cycle),
            }),
    {
        Trb {
            word0: ((self.new_dequeue_pointer & 0xFFFF_FFF0) as u32) | (
            self.stream_context_type.code() << 1) | bool_word(self.cycle),
            word1: (self.new_dequeue_pointer >> 32) as u32,
            word2: (self.stream_id as u32) << 16,
            word3: ((self.slot_idx as u32) << 24) | ((self.endpoint_id as u32) << 16)
                | TrbType::SetTrDequeuePointerCommand.to_word3(cycle),
        }
    }
}

/// Reset a device slot.
#[derive(Debug)]
pub struct ResetDevice(pub u8);

impl ResetDevice {
    pub fn _new(slot_idx: u8) -> (r: ResetDevice)
        ensures
            r.0 == slot_idx,
    {
        ResetDevice(slot_idx)
    }

    /// Encode as a TRB.
    pub fn into_trb(self, cycle: bool) -> (r: Trb)
        ensures
            r == trb_word3_only(
                slot_field(self.0) | trb_type_word3(TrbType::ResetDeviceCommand, cycle),
            ),
    {
        Trb {
            word0: 0,
            word1: 0,
            word2: 0,
            word3: ((self.0 as u32) << 24) | TrbType::ResetDeviceCommand.to_word3(cycle),
        }
    }
}

} // verus!
