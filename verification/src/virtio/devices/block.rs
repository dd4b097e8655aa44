//! The VirtIO block device: capacity and request headers.
use vstd::prelude::*;
use crate::usb_msc::le32_bytes;
use crate::virtio::devices::{le64_seq, push_le32, push_le64};

verus! {

/// Request type: read.
pub const VIRTIO_BLK_T_IN: u32 = 0;
/// Request type: write.
pub const VIRTIO_BLK_T_OUT: u32 = 1;
/// Request type: SCSI command.
pub const VIRTIO_BLK_T_SCSI_CMD: u32 = 2;
/// Request type: SCSI command with data out.
pub const VIRTIO_BLK_T_SCSI_CMD_OUT: u32 = 3;
/// Request type: flush.
pub const VIRTIO_BLK_T_FLUSH: u32 = 4;
/// Request type: flush with data out.
pub const VIRTIO_BLK_T_FLUSH_OUT: u32 = 5;
/// Request flag: barrier.
pub const VIRTIO_BLK_T_BARRIER: u32 = 0x8000_0000;
/// Sector size of the device.
pub const SECTOR_SIZE: usize = 512;

/// Capacity in sectors, from the two configuration words (low first).
pub fn capacity_from_config(lo: u32, hi: u32) -> (r: u64)
    ensures
        r == lo as int + hi as int * 0x1_0000_0000,
{
    let r = lo as u64 | ((hi as u64) << 32);
    assert(lo as u64 | ((hi as u64) << 32u64) == lo as u64 + (hi as u64) * 0x1_0000_0000u64) by (bit_vector);
    r
}

/// The header of a block request.
#[derive(Copy, Clone, Debug, PartialEq, Eq, Structural)]
pub struct VirtioBlockReq {
    pub type_: u32,
    pub ioprio: u32,
    pub sector: u64,
}

/// The 16-byte wire form of a request header.
pub open spec fn block_req_bytes(r: VirtioBlockReq) -> Seq<u8> {
    le32_bytes(r.type_) + le32_bytes(r.ioprio) + le64_seq(r.sector)
}

impl VirtioBlockReq {
    /// A read of sectors from `idx` at priority `prio` (0 highest to the
    /// caller, so the device gets 255 - prio).
    pub fn read(prio: u8, idx: u64) -> (r: VirtioBlockReq)
        ensures
            r.type_ == VIRTIO_BLK_T_IN,
            r.ioprio == 255 - prio,
            r.sector == idx,
    {
        VirtioBlockReq { type_: VIRTIO_BLK_T_IN, ioprio: (255 - prio) as u32, sector: idx }
    }

    /// The wire form.
    pub fn to_bytes(&self) -> (r: Vec<u8>)
        ensures
            r@ == block_req_bytes(*self),
    {
        let mut out: Vec<u8> = Vec::new();
        push_le32(&mut out, self.type_);
        push_le32(&mut out, self.ioprio);
        push_le64(&mut out, self.sector);
        assert(out@ =~= block_req_bytes(*self));
        out
    }
}

/// The volume as the storage layer sees it.
pub struct BlockVolume {
    /// Capacity in sectors
    pub capacity: u64,
}

impl BlockVolume {
    /// The volume's name.
    pub fn name(&self) -> (r: &'static str)
        ensures
            r@ == "virtio"@,
    {
        "virtio"
    }

    /// Block size: one sector.
    pub fn blocksize(&self) -> (r: usize)
        ensures
            r == SECTOR_SIZE,
    {
        SECTOR_SIZE
    }

    /// Capacity in blocks.
    pub fn capacity(&self) -> (r: Option<u64>)
        ensures
            r == Some(self.capacity),
    {
        Some(self.capacity)
    }

    /// The header of a read of `num` sectors from `idx` into a buffer of
    /// `dst_len` bytes (which must hold exactly those sectors).
    pub fn read_request(&self, prio: u8, idx: u64, num: usize, dst_len: usize) -> (r: VirtioBlockReq)
        requires
            dst_len == num * 512,
        ensures
            r == VirtioBlockReq::read_spec(prio, idx),
    {
        VirtioBlockReq::read(prio, idx)
    }

    /// Wiping (TRIM) is not supported; it succeeds doing nothing.
    pub fn wipe(&self, _blockidx: u64, _count: usize) -> (r: Result<(), ()>)
        ensures
            r is Ok,
    {
        Ok(())
    }
}

impl VirtioBlockReq {
    pub open spec fn read_spec(prio: u8, idx: u64) -> VirtioBlockReq {
        VirtioBlockReq { type_: VIRTIO_BLK_T_IN, ioprio: (255 - prio) as u32, sector: idx }
    }
}

} // verus!
