//! The VirtIO device classes the driver knows, and the byte encodings
//! their requests share.
use vstd::prelude::*;
use crate::usb_msc::le32_bytes;

pub mod block;
pub mod input;
pub mod video;

verus! {

/// What a device ID is bound to.
#[derive(Copy, Clone, Debug, PartialEq, Eq, Structural)]
pub enum DeviceKind {
    /// Nothing (reserved ID, unsupported or unknown class)
    Null,
    /// Block device (type 2)
    Block,
    /// GPU (type 16)
    Video,
    /// Input device (type 18)
    Input,
}

/// The driver a device of VirtIO type `dev_id` gets: block (2), GPU (16)
/// and input (18) devices are driven; the reserved type 0, network cards
/// (1) and every other type get the null device.
pub fn device_kind(dev_id: u32) -> (r: DeviceKind)
    ensures
        r == (if dev_id == 2 {
            DeviceKind::Block
        } else if dev_id == 16 {
            DeviceKind::Video
        } else if dev_id == 18 {
            DeviceKind::Input
        } else {
            DeviceKind::Null
        }),
{
    if dev_id == 2 {
        DeviceKind::Block
    } else if dev_id == 16 {
        DeviceKind::Video
    } else if dev_id == 18 {
        DeviceKind::Input
    } else {
        DeviceKind::Null
    }
}

/// The instance bound to a device that is not driven.
pub struct NullDevice;

/// Append the little-endian bytes of a word.
pub fn push_le32(out: &mut Vec<u8>, v: u32)
    ensures
        final(out)@ == old(out)@ + le32_bytes(v),
{
    out.push(v as u8);
    out.push((v >> 8) as u8);
    out.push((v >> 16) as u8);
    out.push((v >> 24) as u8);
    assert(out@ =~= old(out)@ + le32_bytes(v));
}

/// Little-endian bytes of a 64-bit value.
pub open spec fn le64_seq(v: u64) -> Seq<u8> {
    le32_bytes(v as u32) + le32_bytes((v >> 32u64) as u32)
}

/// Append the little-endian bytes of a 64-bit value.
pub fn push_le64(out: &mut Vec<u8>, v: u64)
    ensures
        final(out)@ == old(out)@ + le64_seq(v),
{
    push_le32(out, v as u32);
    push_le32(out, (v >> 32) as u32);
    assert(out@ =~= old(out)@ + le64_seq(v));
}

/// The little-endian word at `at` of `b`.
pub fn read_le32(b: &[u8], at: usize) -> (r: u32)
    requires
        at + 4 <= b@.len(),
    ensures
        r == crate::usb_msc::le32_at(b@, at as int),
{
    (b[at] as u32) | ((b[at + 1] as u32) << 8) | ((b[at + 2] as u32) << 16) | ((b[at + 3] as u32) << 24)
}

} // verus!
