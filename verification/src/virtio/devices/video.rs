//! The VirtIO GPU: control commands, their wire forms, and the choices made
//! when bringing up the scanouts.
use vstd::prelude::*;
use crate::usb_msc::{le32_bytes, le32_at};
use crate::virtio::devices::{le64_seq, push_le32, push_le64, read_le32};

verus! {

/// Control-queue command and response types.
#[derive(Copy, Clone, Debug, PartialEq, Eq, Structural)]
pub enum CtrlType {
    GetDisplayInfo,
    ResourceCreate2d,
    ResourceUnref,
    SetScanout,
    ResourceFlush,
    TransferToHost2d,
    ResourceAttachBacking,
    ResourceDetachBacking,
    UpdateCursor,
    MoveCursor,
    RespOkNodata,
    RespOkDisplayInfo,
    RespErrUnspec,
    RespErrOutOfMemory,
    RespErrInvalidScanoutId,
    RespErrInvalidResourceId,
    RespErrInvalidContextId,
    RespErrInvalidParameter,
}

impl CtrlType {
    pub open spec fn code_spec(self) -> u32 {
        match self {
            CtrlType::GetDisplayInfo => 0x0100,
            CtrlType::ResourceCreate2d => 0x0101,
            CtrlType::ResourceUnref => 0x0102,
            CtrlType::SetScanout => 0x0103,
            CtrlType::ResourceFlush => 0x0104,
            CtrlType::TransferToHost2d => 0x0105,
            CtrlType::ResourceAttachBacking => 0x0106,
            CtrlType::ResourceDetachBacking => 0x0107,
            CtrlType::UpdateCursor => 0x0300,
            CtrlType::MoveCursor => 0x0301,
            CtrlType::RespOkNodata => 0x1100,
            CtrlType::RespOkDisplayInfo => 0x1101,
            CtrlType::RespErrUnspec => 0x1200,
            CtrlType::RespErrOutOfMemory => 0x1201,
            CtrlType::RespErrInvalidScanoutId => 0x1202,
            CtrlType::RespErrInvalidResourceId => 0x1203,
            CtrlType::RespErrInvalidContextId => 0x1204,
            CtrlType::RespErrInvalidParameter => 0x1205,
        }
    }

    /// The type's value on the wire.
    pub fn code(self) -> (r: u32)
        ensures
            r == self.code_spec(),
    {
        match self {
            CtrlType::GetDisplayInfo => 0x0100,
            CtrlType::ResourceCreate2d => 0x0101,
            CtrlType::ResourceUnref => 0x0102,
            CtrlType::SetScanout => 0x0103,
            CtrlType::ResourceFlush => 0x0104,
            CtrlType::TransferToHost2d => 0x0105,
            CtrlType::ResourceAttachBacking => 0x0106,
            CtrlType::ResourceDetachBacking => 0x0107,
            CtrlType::UpdateCursor => 0x0300,
            CtrlType::MoveCursor => 0x0301,
            CtrlType::RespOkNodata => 0x1100,
            CtrlType::RespOkDisplayInfo => 0x1101,
            CtrlType::RespErrUnspec => 0x1200,
            CtrlType::RespErrOutOfMemory => 0x1201,
            CtrlType::RespErrInvalidScanoutId => 0x1202,
            CtrlType::RespErrInvalidResourceId => 0x1203,
            CtrlType::RespErrInvalidContextId => 0x1204,
            CtrlType::RespErrInvalidParameter => 0x1205,
        }
    }
}

/// Pixel formats of 2D resources.
#[derive(Copy, Clone, Debug, PartialEq, Eq, Structural)]
pub enum GpuFormat {
    B8G8R8A8Unorm,
    B8G8R8X8Unorm,
    A8R8G8B8Unorm,
    X8R8G8B8Unorm,
    R8G8B8A8Unorm,
    X8B8G8R8Unorm,
    A8B8G8R8Unorm,
    R8G8B8X8Unorm,
}

impl GpuFormat {
    pub open spec fn code_spec(self) -> u32 {
        match self {
            GpuFormat::B8G8R8A8Unorm => 1,
            GpuFormat::B8G8R8X8Unorm => 2,
            GpuFormat::A8R8G8B8Unorm => 3,
            GpuFormat::X8R8G8B8Unorm => 4,
            GpuFormat::R8G8B8A8Unorm => 67,
            GpuFormat::X8B8G8R8Unorm => 68,
            GpuFormat::A8B8G8R8Unorm => 121,
            GpuFormat::R8G8B8X8Unorm => 134,
        }
    }

    /// The format's value on the wire.
    pub fn code(self) -> (r: u32)
        ensures
            r == self.code_spec(),
    {
        match self {
            GpuFormat::B8G8R8A8Unorm => 1,
            GpuFormat::B8G8R8X8Unorm => 2,
            GpuFormat::A8R8G8B8Unorm => 3,
            GpuFormat::X8R8G8B8Unorm => 4,
            GpuFormat::R8G8B8A8Unorm => 67,
            GpuFormat::X8B8G8R8Unorm => 68,
            GpuFormat::A8B8G8R8Unorm => 121,
            GpuFormat::R8G8B8X8Unorm => 134,
        }
    }
}

/// The response must be fenced.
pub const VIRTIO_GPU_FLAG_FENCE: u32 = 1;
/// Most scanouts a device reports.
pub const MAX_SCANOUTS: usize = 16;
/// Size in bytes of a control header.
pub const CTRL_HEADER_SIZE: usize = 24;
/// Size in bytes of one scanout's display information.
pub const DISPLAY_ONE_SIZE: usize = 24;

/// The header of every control command and response.
#[derive(Copy, Clone, Debug, PartialEq, Eq, Structural)]
pub struct CtrlHeader {
    pub type_: u32,
    pub flags: u32,
    pub fence_id: u64,
    pub ctx_id: u32,
    pub padding: u32,
}

/// The 24-byte wire form of a header.
pub open spec fn ctrl_header_bytes(h: CtrlHeader) -> Seq<u8> {
    le32_bytes(h.type_) + le32_bytes(h.flags) + le64_seq(h.fence_id) + le32_bytes(h.ctx_id) + le32_bytes(h.padding)
}

impl CtrlHeader {
    /// The header of a command of type `t`, unfenced.
    pub fn command(t: CtrlType) -> (r: CtrlHeader)
        ensures
            r == (CtrlHeader { type_: t.code_spec(), flags: 0, fence_id: 0, ctx_id: 0, padding: 0 }),
    {
        CtrlHeader { type_: t.code(), flags: 0, fence_id: 0, ctx_id: 0, padding: 0 }
    }

    /// The header of the display-information request: fenced, fence 1.
    pub fn get_display_info() -> (r: CtrlHeader)
        ensures
            r == (CtrlHeader {
                type_: CtrlType::GetDisplayInfo.code_spec(),
                flags: VIRTIO_GPU_FLAG_FENCE,
                fence_id: 1,
                ctx_id: 0,
                padding: 0,
            }),
    {
        CtrlHeader { type_: CtrlType::GetDisplayInfo.code(), flags: VIRTIO_GPU_FLAG_FENCE, fence_id: 1, ctx_id: 0, padding: 0 }
    }

    /// The wire form.
    pub fn to_bytes(&self) -> (r: Vec<u8>)
        ensures
            r@ == ctrl_header_bytes(*self),
    {
        let mut out: Vec<u8> = Vec::new();
        push_le32(&mut out, self.type_);
        push_le32(&mut out, self.flags);
        push_le64(&mut out, self.fence_id);
        push_le32(&mut out, self.ctx_id);
        push_le32(&mut out, self.padding);
        assert(out@ =~= ctrl_header_bytes(*self));
        out
    }
}

/// A rectangle: position and size.
#[derive(Copy, Clone, Debug, PartialEq, Eq, Structural)]
pub struct Rect {
    pub x: u32,
    pub y: u32,
    pub width: u32,
    pub height: u32,
}

/// The 16-byte wire form of a rectangle.
pub open spec fn rect_bytes(r: Rect) -> Seq<u8> {
    le32_bytes(r.x) + le32_bytes(r.y) + le32_bytes(r.width) + le32_bytes(r.height)
}

/// Append the wire form of a rectangle.
fn push_rect(out: &mut Vec<u8>, r: Rect)
    ensures
        final(out)@ == old(out)@ + rect_bytes(r),
{
    push_le32(out, r.x);
    push_le32(out, r.y);
    push_le32(out, r.width);
    push_le32(out, r.height);
    assert(out@ =~= old(out)@ + rect_bytes(r));
}

/// What the device reports of one scanout.
#[derive(Copy, Clone, Debug, PartialEq, Eq, Structural)]
pub struct DisplayOne {
    pub r: Rect,
    pub enabled: u32,
    pub flags: u32,
}

impl DisplayOne {
    /// Decode the entry at byte `at` of a display-information response.
    pub fn from_bytes(b: &[u8], at: usize) -> (r: DisplayOne)
        requires
            at + 24 <= b.len(),
        ensures
            r.r.x == le32_at(b@, at as int),
            r.r.y == le32_at(b@, at + 4),
            r.r.width == le32_at(b@, at + 8),
            r.r.height == le32_at(b@, at + 12),
            r.enabled == le32_at(b@, at + 16),
            r.flags == le32_at(b@, at + 20),
    {
        DisplayOne {
            r: Rect {
                x: read_le32(b, at),
                y: read_le32(b, at + 4),
                width: read_le32(b, at + 8),
                height: read_le32(b, at + 12),
            },
            enabled: read_le32(b, at + 16),
            flags: read_le32(b, at + 20),
        }
    }
}

/// Length of a complete display-information response: the header and
/// sixteen scanout entries.
pub open spec fn display_info_len() -> int {
    CTRL_HEADER_SIZE + MAX_SCANOUTS * DISPLAY_ONE_SIZE
}

/// The scanout entries of a display-information response of `len` bytes
/// in `b` (header first); nothing if the length is not that of a complete
/// response.
pub fn parse_display_info(b: &[u8], len: usize) -> (r: Option<Vec<DisplayOne>>)
    requires
        len <= b@.len(),
    ensures
        len != display_info_len() ==> r is None,
        len == display_info_len() ==> (r matches Some(v) && v@.len() == MAX_SCANOUTS
            && forall|i: int| 0 <= i < MAX_SCANOUTS ==> (#[trigger] v@[i]).enabled == le32_at(b@, 24 + 24 * i + 16)
                && v@[i].r.width == le32_at(b@, 24 + 24 * i + 8)
                && v@[i].r.height == le32_at(b@, 24 + 24 * i + 12)
                && v@[i].r.x == le32_at(b@, 24 + 24 * i)
                && v@[i].r.y == le32_at(b@, 24 + 24 * i + 4)
                && v@[i].flags == le32_at(b@, 24 + 24 * i + 20)),
{
    if len != CTRL_HEADER_SIZE + MAX_SCANOUTS * DISPLAY_ONE_SIZE {
        return None;
    }
    let mut v: Vec<DisplayOne> = Vec::new();
    let mut i: usize = 0;
    while i < MAX_SCANOUTS
        invariant
            i <= MAX_SCANOUTS,
            len == display_info_len(),
            len <= b@.len(),
            v@.len() == i,
            forall|k: int| 0 <= k < i ==> (#[trigger] v@[k]).enabled == le32_at(b@, 24 + 24 * k + 16)
                && v@[k].r.width == le32_at(b@, 24 + 24 * k + 8)
                && v@[k].r.height == le32_at(b@, 24 + 24 * k + 12)
                && v@[k].r.x == le32_at(b@, 24 + 24 * k)
                && v@[k].r.y == le32_at(b@, 24 + 24 * k + 4)
                && v@[k].flags == le32_at(b@, 24 + 24 * k + 20),
        decreases MAX_SCANOUTS - i,
    {
        let d = DisplayOne::from_bytes(b, CTRL_HEADER_SIZE + DISPLAY_ONE_SIZE * i);
        v.push(d);
        i += 1;
    }
    Some(v)
}

/// The scanouts, among the first `num_scanouts`, that the device reports
/// enabled, in order.
pub fn enabled_scanouts(info: &[DisplayOne], num_scanouts: usize) -> (r: Vec<usize>)
    requires
        num_scanouts <= info@.len(),
    ensures
        r@ == Seq::new(num_scanouts as nat, |i: int| i as usize).filter(|i: usize| info@[i as int].enabled != 0),
{
    let ghost all = Seq::new(num_scanouts as nat, |i: int| i as usize);
    let ghost pred = |i: usize| info@[i as int].enabled != 0;
    let mut r: Vec<usize> = Vec::new();
    let mut i: usize = 0;
    while i < num_scanouts
        invariant
            i <= num_scanouts <= info@.len(),
            all == Seq::new(num_scanouts as nat, |i: int| i as usize),
            pred == (|i: usize| info@[i as int].enabled != 0),
            r@ == all.take(i as int).filter(pred),
        decreases num_scanouts - i,
    {
        proof {
            assert(all.take(i + 1) =~= all.take(i as int).push(i));
            all.take(i as int).lemma_filter_push(i, pred);
        }
        if info[i].enabled != 0 {
            r.push(i);
        }
        i += 1;
    }
    assert(all.take(num_scanouts as int) =~= all);
    r
}

/// Command body: create a 2D resource.
#[derive(Copy, Clone, Debug, PartialEq, Eq, Structural)]
pub struct ResourceCreate2d {
    pub resource_id: u32,
    pub format: u32,
    pub width: u32,
    pub height: u32,
}

/// The 16-byte wire form of a resource creation.
pub open spec fn resource_create_bytes(c: ResourceCreate2d) -> Seq<u8> {
    le32_bytes(c.resource_id) + le32_bytes(c.format) + le32_bytes(c.width) + le32_bytes(c.height)
}

impl ResourceCreate2d {
    /// Create resource `resource_id` of the given format and size.
    pub fn new(resource_id: u32, format: GpuFormat, width: u32, height: u32) -> (r: ResourceCreate2d)
        ensures
            r == (ResourceCreate2d { resource_id, format: format.code_spec(), width, height }),
    {
        ResourceCreate2d { resource_id, format: format.code(), width, height }
    }

    /// The wire form.
    pub fn to_bytes(&self) -> (r: Vec<u8>)
        ensures
            r@ == resource_create_bytes(*self),
    {
        let mut out: Vec<u8> = Vec::new();
        push_le32(&mut out, self.resource_id);
        push_le32(&mut out, self.format);
        push_le32(&mut out, self.width);
        push_le32(&mut out, self.height);
        assert(out@ =~= resource_create_bytes(*self));
        out
    }
}

/// Command body: show a resource on a scanout.
#[derive(Copy, Clone, Debug, PartialEq, Eq, Structural)]
pub struct SetScanout {
    pub r: Rect,
    pub scanout_id: u32,
    pub resource_id: u32,
}

/// The 24-byte wire form of a scanout assignment.
pub open spec fn set_scanout_bytes(c: SetScanout) -> Seq<u8> {
    rect_bytes(c.r) + le32_bytes(c.scanout_id) + le32_bytes(c.resource_id)
}

impl SetScanout {
    /// Show resource `resource_id` in `rect` of scanout `scanout_idx`.
    pub fn new(rect: Rect, scanout_idx: usize, resource_id: u32) -> (r: SetScanout)
        ensures
            r == (SetScanout { r: rect, scanout_id: scanout_idx as u32, resource_id }),
    {
        SetScanout { r: rect, scanout_id: scanout_idx as u32, resource_id }
    }

    /// The wire form.
    pub fn to_bytes(&self) -> (r: Vec<u8>)
        ensures
            r@ == set_scanout_bytes(*self),
    {
        let mut out: Vec<u8> = Vec::new();
        push_rect(&mut out, self.r);
        push_le32(&mut out, self.scanout_id);
        push_le32(&mut out, self.resource_id);
        assert(out@ =~= set_scanout_bytes(*self));
        out
    }
}

/// Pages of backing memory for a scanout of the given width: width by
/// width pixels of four bytes, rounded up to pages.
pub fn framebuffer_pages(width: u32) -> (r: usize)
    requires
        width as int * width as int * 4 + 0xFFF <= usize::MAX,
    ensures
        r == (width as int * width as int * 4 + 0xFFF) / 0x1000,
{
    let w = width as usize;
    assert(w * w * 4 + 0xFFF <= usize::MAX);
    (w * w * 4 + 0xFFF) / 0x1000
}

/// The source of resource identifiers: each comes once, counting up from 0
/// (wrapping).
pub struct ResourceIds {
    pub next: u32,
}

impl ResourceIds {
    /// Identifiers from 0.
    pub fn new() -> (r: ResourceIds)
        ensures
            r.next == 0,
    {
        ResourceIds { next: 0 }
    }

    /// Hand out the next identifier.
    pub fn allocate(&mut self) -> (r: u32)
        ensures
            r == old(self).next,
            final(self).next == (old(self).next + 1) % 0x1_0000_0000,
    {
        let r = self.next;
        self.next = self.next.wrapping_add(1);
        r
    }
}

} // verus!
