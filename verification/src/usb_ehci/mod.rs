//! Enhanced Host Controller Interface (EHCI): descriptor pools, hardware
//! records, register layout, and the scheduling decisions of the driver.
use vstd::prelude::*;
use crate::usb_ehci::hw_regs::{
    PORTSC_CONNECT_STATUS_CHANGE, PORTSC_PORT_ENABLE_CHANGE, PORTSC_OVERCURRENT_CHANGE,
    USBINTR_IOC, USBINTR_INTR_ASYNC_ADVANCE, USBINTR_PORT_CHANGE, USBINTR_FRAME_ROLLOVER,
};

pub mod desc_pools;
pub mod host_interrupt;
pub mod host_queuemgmt;
pub mod hw_regs;
pub mod hw_structs;
pub mod transfers;
pub mod usb_host;

verus! {

/// Interrupt status bits that need handling (the state bits 15:12 are not events).
pub fn irq_pending_bits(usbsts: u32) -> (r: u32)
    ensures
        r == usbsts & !0xF000u32,
{
    usbsts & !0xF000u32
}

/// The pending bits left over after the ones the driver handles.
pub fn irq_unhandled_bits(pending: u32) -> (r: u32)
    ensures
        r == pending & !(USBINTR_IOC | USBINTR_INTR_ASYNC_ADVANCE | USBINTR_PORT_CHANGE | USBINTR_FRAME_ROLLOVER),
{
    pending & !(USBINTR_IOC | USBINTR_INTR_ASYNC_ADVANCE | USBINTR_PORT_CHANGE | USBINTR_FRAME_ROLLOVER)
}

/// A port reports a change (connection, enable or over-current).
pub open spec fn port_changed(sc: u32) -> bool {
    sc & (PORTSC_CONNECT_STATUS_CHANGE | PORTSC_PORT_ENABLE_CHANGE | PORTSC_OVERCURRENT_CHANGE) != 0
}

proof fn lemma_or_bit(x: u32, b: u32, c: u32)
    requires
        b < 32,
        c < 32,
    ensures
        ((x | (1u32 << b)) & (1u32 << c) != 0) == (b == c || x & (1u32 << c) != 0),
{
    crate::bits::lemma_u32_set_bit(x, b, c);
}

/// Mask of the ports (at most 32) whose status word reports a change.
pub fn irq_port_updates(port_scs: &[u32]) -> (r: u32)
    requires
        port_scs@.len() <= 32,
    ensures
        forall|i: u32|
            #![trigger r & (1u32 << i)]
            #![trigger port_scs@[i as int]]
            i < port_scs@.len() ==> (r & (1u32 << i) != 0 <==> port_changed(port_scs@[i as int])),
        forall|i: u32| #![trigger r & (1u32 << i)] port_scs@.len() <= i < 32 ==> r & (1u32 << i) == 0,
{
    let mut mask: u32 = 0;
    let mut i: usize = 0;
    assert forall|j: u32| j < 32 implies #[trigger] (0u32 & (1u32 << j)) == 0 by {
        crate::bits::lemma_u32_bit_test(0, j);
    }
    while i < port_scs.len()
        invariant
            i <= port_scs@.len() <= 32,
            forall|j: u32| j < i ==> (mask & (1u32 << j) != 0 <==> port_changed(port_scs@[j as int])),
            forall|j: u32| i <= j < 32 ==> #[trigger] (mask & (1u32 << j)) == 0,
        decreases port_scs@.len() - i,
    {
        let sc = port_scs[i];
        let b = i as u32;
        if sc & (PORTSC_CONNECT_STATUS_CHANGE | PORTSC_PORT_ENABLE_CHANGE | PORTSC_OVERCURRENT_CHANGE) != 0 {
            let m0 = mask;
            mask = mask | (1u32 << b);
            assert forall|j: u32| j < 32 implies (#[trigger] ((m0 | (1u32 << b)) & (1u32 << j)) != 0) == (j == b || m0 & (1u32 << j) != 0) by {
                lemma_or_bit(m0, b, j);
            }
        }
        i += 1;
    }
    mask
}

} // verus!
