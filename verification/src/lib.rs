//! Device-driver logic for the Tifflin kernel modules: USB core, host
//! controllers (EHCI, OHCI, xHCI), HID and mass-storage class drivers,
//! UTF-16 strings, VFS paths, the initrd filesystem, the VGA CRTC and VirtIO.
use vstd::prelude::*;

pub mod bits;
pub mod usb_core;
pub mod usb_ehci;
pub mod usb_hid;
pub mod usb_msc;
pub mod usb_ohci;
pub mod usb_xhci;
pub mod utf16;
pub mod vfs;
pub mod video_vga;
pub mod virtio;

verus! {
} // verus!
