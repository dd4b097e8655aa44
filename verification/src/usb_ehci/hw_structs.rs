//! Hardware records: queue element transfer descriptors and queue heads.
use vstd::prelude::*;

verus! {

/// Data toggle
pub const QTD_TOKEN_DATATGL: u32 = 0x8000_0000;
/// Interrupt on completion
pub const QTD_TOKEN_IOC: u32 = 0x8000;
/// The descriptor is active
pub const QTD_TOKEN_STS_ACTIVE: u32 = 0x80;
/// The descriptor halted
pub const QTD_TOKEN_STS_HALT: u32 = 0x40;
/// Horizontal link type: queue head
pub const QH_HLINK_TY_QH: u32 = 0x2;
/// Head of the reclamation list
pub const QH_ENDPT_H: u32 = 0x8000;

/// A queue element transfer descriptor (32 bytes).
#[derive(Copy, Clone, Debug)]
pub struct TransferDesc {
    pub link: u32,
    /// Used on a short packet
    pub link2: u32,
    /// 30:16 length, 15 IOC, 9:8 PID, 7:0 status
    pub token: u32,
    /// Buffer pages; the first has the offset in its low 12 bits
    pub pages: [u32; 5],
}

impl TransferDesc {
    /// Byte count held in a token (bits 30:16).
    pub fn token_len(token: u32) -> (r: usize)
        ensures
            r == (token >> 16u32) & 0x7FFF,
    {
        let v = (token >> 16) & 0x7FFF;
        proof {
            crate::bits::lemma_u32_and_le(token >> 16u32, 0x7FFF);
        }
        v as usize
    }
}

/// A queue head (64 bytes, of which the last 16 are unused).
#[derive(Copy, Clone, Debug)]
pub struct QueueHead {
    /// Horizontal link: 31:5 address, 2:1 type, 0 terminate
    pub hlink: u32,
    pub endpoint: u32,
    pub endpoint_ext: u32,
    /// Current descriptor (written by the controller)
    pub current_td: u32,
    pub overlay_link: u32,
    pub overlay_link2: u32,
    pub overlay_token: u32,
    pub overlay_pages: [u32; 5],
}

/// Packet identifier of a transfer descriptor.
#[derive(Copy, Clone, Debug, PartialEq, Eq, Structural)]
pub enum Pid {
    Out,
    In,
    Setup,
}

pub open spec fn pid_code(p: Pid) -> u32 {
    match p {
        Pid::Out => 0,
        Pid::In => 1,
        Pid::Setup => 2,
    }
}

impl Pid {
    /// Numeric value of the PID field.
    pub fn code(&self) -> (r: u32)
        ensures
            r == pid_code(*self),
    {
        match self {
            Pid::Out => 0,
            Pid::In => 1,
            Pid::Setup => 2,
        }
    }
}

/// Token of a new descriptor: the PID in bits 9:8 and the length from bit 16.
pub open spec fn td_token(packet_id: Pid, len: u32) -> u32 {
    (pid_code(packet_id) << 8u32) | (len << 16u32)
}

} // verus!
