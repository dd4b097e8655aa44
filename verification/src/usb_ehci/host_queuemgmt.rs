//! Asynchronous schedule management decisions.
use vstd::prelude::*;
use crate::usb_ehci::desc_pools::qh_pool::QhHandle;
use crate::usb_ehci::hw_regs::{USBSTS_ASYNC_ENABLED, USBCMD_IAAD, USBCMD_ASYNC_ENABLE};

verus! {

/// A queue head linked into the asynchronous schedule.
#[derive(Debug)]
pub struct HostHeldQh {
    pub qh: QhHandle,
}

/// After a queue head is unlinked: the released queue heads can be freed
/// at once when the async schedule is stopped; otherwise the controller is
/// asked to interrupt on the next advance (the new USBCMD value).
pub fn after_async_removal(usbsts: u32, usbcmd: u32) -> (r: Option<u32>)
    ensures
        usbsts & USBSTS_ASYNC_ENABLED == 0 ==> r is None,
        usbsts & USBSTS_ASYNC_ENABLED != 0 ==> r == Some(usbcmd | USBCMD_IAAD),
{
    if usbsts & USBSTS_ASYNC_ENABLED == 0 {
        None
    } else {
        Some(usbcmd | USBCMD_IAAD)
    }
}

/// Restarting a stopped async schedule: the list address to program (the
/// link of the head, without its flags) and the new USBCMD value; `None`
/// when the schedule is running.
pub fn async_restart(usbsts: u32, usbcmd: u32, head_hlink: u32) -> (r: Option<(u32, u32)>)
    ensures
        usbsts & USBSTS_ASYNC_ENABLED == 0 ==> r == Some((head_hlink & !0xFu32, usbcmd | USBCMD_ASYNC_ENABLE)),
        usbsts & USBSTS_ASYNC_ENABLED != 0 ==> r is None,
{
    if usbsts & USBSTS_ASYNC_ENABLED == 0 {
        Some((head_hlink & !0xF, usbcmd | USBCMD_ASYNC_ENABLE))
    } else {
        None
    }
}

} // verus!
