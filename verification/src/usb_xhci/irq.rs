//! What the controller's interrupt asks of the driver: the status bits it
//! handles, and the action each event calls for.
use vstd::prelude::*;
use crate::usb_xhci::event_ring::Event;
use crate::usb_xhci::hw::regs::{USBSTS_EINT, USBSTS_HCE, USBSTS_PCD};
use crate::usb_xhci::hw::structs::{TrbCompletionCode, TrbNormalData, TrbType};

verus! {

/// The interrupt is the controller's: an event, an error or a port change
/// is flagged.
pub fn irq_pending(sts: u32) -> (r: bool)
    ensures
        r == (sts & (USBSTS_EINT | USBSTS_HCE | USBSTS_PCD) != 0),
{
    sts & (USBSTS_EINT | USBSTS_HCE | USBSTS_PCD) != 0
}

/// The status bits the driver handles and acknowledges: the event
/// interrupt, when flagged.
pub fn irq_handled_bits(sts: u32) -> (r: u32)
    ensures
        r == (if sts & USBSTS_EINT != 0 { USBSTS_EINT } else { 0 }),
{
    if sts & USBSTS_EINT != 0 {
        USBSTS_EINT
    } else {
        0
    }
}

/// What an event calls for.
#[derive(Debug)]
pub enum EventAction {
    /// Nothing
    Ignore,
    /// Root-hub port `port` (from 0) changed: flag it and wake the hub task
    PortUpdate(u8),
    /// An Enable Slot command gave slot `slot`
    SlotEnabled(u8),
    /// An Address Device command finished
    AddressDone,
    /// A Configure Endpoint command on slot `slot` finished (slot from 0)
    ConfigureDone(usize),
    /// A command failed
    CommandFailed(TrbCompletionCode),
    /// A transfer on slot `slot`, endpoint `endpoint` (both from 0) finished
    TransferDone { slot: usize, endpoint: usize, data: TrbNormalData, transfer_length: u32, completion_code: TrbCompletionCode },
}

/// Ports, slots and endpoints in the event are numbered from 1.
pub open spec fn event_ids_ok(ev: Event) -> bool {
    match ev {
        Event::PortStatusChange { port_id, .. } => port_id >= 1,
        Event::CommandCompletion { slot_id, .. } => slot_id >= 1,
        Event::Transfer { slot_id, endpoint_id, .. } => slot_id >= 1 && endpoint_id >= 1,
        _ => true,
    }
}

/// The action for an event; `command_type` is the type of the command a
/// completion event points at (as the command ring recorded it).
pub fn event_action(ev: Event, command_type: Option<TrbType>) -> (r: EventAction)
    requires
        event_ids_ok(ev),
    ensures
        match ev {
            Event::PortStatusChange { port_id, .. } => r matches EventAction::PortUpdate(p) && p == port_id - 1,
            Event::CommandCompletion { completion_code, slot_id, .. } => if completion_code == TrbCompletionCode::Success {
                match command_type {
                    Some(TrbType::EnableSlotCommand) => r matches EventAction::SlotEnabled(s) && s == slot_id,
                    Some(TrbType::AddressDeviceCommand) => r is AddressDone,
                    Some(TrbType::ConfigureEndpointCommand) => r matches EventAction::ConfigureDone(s) && s == slot_id - 1,
                    _ => r is Ignore,
                }
            } else {
                r matches EventAction::CommandFailed(c) && c == completion_code
            },
            Event::Transfer { data, transfer_length, completion_code, slot_id, endpoint_id } => r matches EventAction::TransferDone {
                slot: s,
                endpoint: e,
                data: d,
                transfer_length: l,
                completion_code: c,
            } && s == slot_id - 1 && e == endpoint_id - 1 && d == data && l == transfer_length && c == completion_code,
            _ => r is Ignore,
        },
{
    match ev {
        Event::PortStatusChange { port_id, .. } => EventAction::PortUpdate(port_id - 1),
        Event::CommandCompletion { completion_code, slot_id, .. } => {
            if completion_code == TrbCompletionCode::Success {
                match command_type {
                    Some(TrbType::EnableSlotCommand) => EventAction::SlotEnabled(slot_id),
                    Some(TrbType::AddressDeviceCommand) => EventAction::AddressDone,
                    Some(TrbType::ConfigureEndpointCommand) => EventAction::ConfigureDone(slot_id as usize - 1),
                    _ => EventAction::Ignore,
                }
            } else {
                EventAction::CommandFailed(completion_code)
            }
        },
        Event::Transfer { data, transfer_length, completion_code, slot_id, endpoint_id } => EventAction::TransferDone {
            slot: slot_id as usize - 1,
            endpoint: endpoint_id as usize - 1,
            data,
            transfer_length,
            completion_code,
        },
        _ => EventAction::Ignore,
    }
}

} // verus!
