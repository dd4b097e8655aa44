//! USB mass-storage class (bulk-only transport): command block and status
//! wrappers, and the checks made on each transfer.
use vstd::prelude::*;
use crate::usb_core::device::MatchLevel;

verus! {

/// The mass-storage class driver.
pub struct Driver;

impl Driver {
    /// Driver name.
    pub fn name(&self) -> (r: &'static str)
        ensures
            r@ == "msc"@,
    {
        proof {
            reveal_strlit("msc");
        }
        "msc"
    }

    /// Mass storage with the SCSI command set over bulk-only transport
    /// (class 8, subclass 6, protocol 0x50).
    pub fn matches(&self, _vendor_id: u16, _device_id: u16, class_code: u32) -> (r: MatchLevel)
        ensures
            r == (if class_code == 0x080650 { MatchLevel::Generic } else { MatchLevel::Unmatched }),
    {
        if class_code == 0x080650 {
            MatchLevel::Generic
        } else {
            MatchLevel::Unmatched
        }
    }
}

/// Command block wrapper signature ('USBC').
pub const CBW_SIG: u32 = 0x43425355;
/// Data flows from the device.
pub const CBW_FLAG_INPUT: u8 = 0x80;
/// Command status wrapper signature ('USBS').
pub const CSW_SIG: u32 = 0x53425355;

/// Command block wrapper.
#[derive(Debug)]
pub struct Cbw {
    pub sig: u32,
    pub tag: u32,
    pub data_len: u32,
    pub flags: u8,
    pub lun: u8,
    pub cmd_len: u8,
    pub cmd_bytes: [u8; 16],
}

/// Little-endian bytes of a word.
pub open spec fn le32_bytes(v: u32) -> Seq<u8> {
    seq![v as u8, (v >> 8u32) as u8, (v >> 16u32) as u8, (v >> 24u32) as u8]
}

/// The 31-byte wire form of a command block wrapper.
pub open spec fn cbw_bytes(c: Cbw) -> Seq<u8> {
    le32_bytes(c.sig) + le32_bytes(c.tag) + le32_bytes(c.data_len) + seq![c.flags, c.lun, c.cmd_len]
        + c.cmd_bytes@
}

impl Cbw {
    /// The wire form.
    pub fn to_bytes(self) -> (r: [u8; 31])
        ensures
            r@ == cbw_bytes(self),
    {
        let c = self.cmd_bytes;
        let r = [
            self.sig as u8, (self.sig >> 8) as u8, (self.sig >> 16) as u8, (self.sig >> 24) as u8,
            self.tag as u8, (self.tag >> 8) as u8, (self.tag >> 16) as u8, (self.tag >> 24) as u8,
            self.data_len as u8, (self.data_len >> 8) as u8, (self.data_len >> 16) as u8, (self.data_len >> 24) as u8,
            self.flags, self.lun, self.cmd_len,
            c[0], c[1], c[2], c[3], c[4], c[5], c[6], c[7],
            c[8], c[9], c[10], c[11], c[12], c[13], c[14], c[15],
        ];
        assert(r@ =~= cbw_bytes(self));
        r
    }

    /// A command padded with zeros to 16 bytes.
    pub fn slice_to_array(s: &[u8]) -> (r: [u8; 16])
        requires
            s@.len() <= 16,
        ensures
            forall|i: int| 0 <= i < 16 ==> r[i] == (if i < s@.len() { s@[i] } else { 0u8 }),
    {
        let mut rv = [0u8; 16];
        let n = s.len();
        let mut i: usize = 0;
        while i < n
            invariant
                n == s@.len(),
                n <= 16,
                i <= n,
                forall|j: int| 0 <= j < 16 ==> rv[j] == (if j < i { s@[j] } else { 0u8 }),
            decreases n - i,
        {
            rv[i] = s[i];
            i += 1;
        }
        rv
    }
}

/// Command status wrapper.
#[derive(Debug, PartialEq, Eq, Structural)]
pub struct Csw {
    /// 'USBS'
    pub sig: u32,
    /// Tag of the command block
    pub tag: u32,
    /// Amount of data not processed
    pub data_residue: u32,
    /// 0: passed, 1: failed, 2: phase error
    pub status: u8,
}

/// The little-endian word at `i`.
pub open spec fn le32_at(b: Seq<u8>, i: int) -> u32 {
    (b[i] as u32) | ((b[i + 1] as u32) << 8u32) | ((b[i + 2] as u32) << 16u32) | ((b[i + 3] as u32) << 24u32)
}

impl Csw {
    /// Decode the 13-byte wire form.
    pub fn from_bytes(b: [u8; 13]) -> (r: Csw)
        ensures
            r.sig == le32_at(b@, 0),
            r.tag == le32_at(b@, 4),
            r.data_residue == le32_at(b@, 8),
            r.status == b[12],
    {
        Csw {
            sig: (b[0] as u32) | ((b[1] as u32) << 8) | ((b[2] as u32) << 16) | ((b[3] as u32) << 24),
            tag: (b[4] as u32) | ((b[5] as u32) << 8) | ((b[6] as u32) << 16) | ((b[7] as u32) << 24),
            data_residue: (b[8] as u32) | ((b[9] as u32) << 8) | ((b[10] as u32) << 16) | ((b[11] as u32) << 24),
            status: b[12],
        }
    }
}

/// A word written with [`le32_bytes`] reads back the same.
pub proof fn lemma_le32_roundtrip(v: u32)
    ensures
        le32_at(le32_bytes(v), 0) == v,
{
    let b = le32_bytes(v);
    assert(b[0] == v as u8 && b[1] == (v >> 8u32) as u8 && b[2] == (v >> 16u32) as u8 && b[3] == (v >> 24u32) as u8);
    assert(((v as u8) as u32) | ((((v >> 8u32) as u8) as u32) << 8u32) | ((((v >> 16u32) as u8) as u32) << 16u32)
        | ((((v >> 24u32) as u8) as u32) << 24u32) == v) by (bit_vector);
}

/// A status wrapper the transport cannot accept.
#[derive(Copy, Clone, Debug, PartialEq, Eq, Structural)]
pub enum CswError {
    /// The signature is not 'USBS'
    BadSignature,
    /// The tag is not the command's
    TagMismatch,
    /// More data reported unprocessed than was requested
    ResidueTooLarge,
}

/// The first problem with a status wrapper for the command `tag` moving
/// `len` bytes, if any.
pub open spec fn csw_problem_spec(csw: Csw, tag: u32, len: usize) -> Option<CswError> {
    if csw.sig != CSW_SIG {
        Some(CswError::BadSignature)
    } else if csw.tag != tag {
        Some(CswError::TagMismatch)
    } else if csw.data_residue > len as u32 {
        Some(CswError::ResidueTooLarge)
    } else {
        None
    }
}

pub fn csw_problem(csw: &Csw, tag: u32, len: usize) -> (r: Option<CswError>)
    ensures
        r == csw_problem_spec(*csw, tag, len),
{
    if csw.sig != CSW_SIG {
        Some(CswError::BadSignature)
    } else if csw.tag != tag {
        Some(CswError::TagMismatch)
    } else if csw.data_residue > len as u32 {
        Some(CswError::ResidueTooLarge)
    } else {
        None
    }
}

/// Transport state of one device: the tag of the next command.
pub struct ScsiInterfaceInner {
    pub next_tag: u32,
}

impl ScsiInterfaceInner {
    pub fn new() -> (r: ScsiInterfaceInner)
        ensures
            r.next_tag == 0,
    {
        ScsiInterfaceInner { next_tag: 0 }
    }

    /// Start a command moving `len` bytes (from the device when `input`):
    /// the command block wrapper, carrying the next tag.
    pub fn begin(&mut self, lun: u8, cmd: &[u8], len: usize, input: bool) -> (r: Cbw)
        requires
            cmd@.len() < 16,
            old(self).next_tag < u32::MAX,
        ensures
            final(self).next_tag == old(self).next_tag + 1,
            r.sig == CBW_SIG,
            r.tag == old(self).next_tag,
            r.data_len == len as u32,
            r.flags == (if input { CBW_FLAG_INPUT } else { 0u8 }),
            r.lun == lun,
            r.cmd_len == cmd@.len(),
            forall|i: int| 0 <= i < 16 ==> r.cmd_bytes[i] == (if i < cmd@.len() { cmd@[i] } else { 0u8 }),
    {
        let tag = self.next_tag;
        self.next_tag = self.next_tag + 1;
        Cbw {
            sig: CBW_SIG,
            tag,
            data_len: len as u32,
            flags: if input { CBW_FLAG_INPUT } else { 0 },
            lun,
            cmd_len: cmd.len() as u8,
            cmd_bytes: Cbw::slice_to_array(cmd),
        }
    }

    /// Finish a command of `len` bytes from its (acceptable) status: the
    /// bytes moved, or an error when the command did not pass.
    pub fn finish(&self, csw: &Csw, tag: u32, len: usize) -> (r: Result<usize, ()>)
        requires
            csw_problem_spec(*csw, tag, len) is None,
        ensures
            csw.status != 0 ==> r is Err,
            csw.status == 0 ==> r == Ok::<usize, ()>((len - csw.data_residue) as usize),
    {
        if csw.status != 0 {
            Err(())
        } else {
            Ok(len - csw.data_residue as usize)
        }
    }
}

/// Outcome of a SCSI transfer request.
#[derive(Copy, Clone, Debug, PartialEq, Eq, Structural)]
pub enum MscIoError {
    /// Fewer bytes moved than requested
    Undersized,
    /// The transport reported an error
    Usb,
}

/// Map a transfer result for a request of `len` bytes.
pub fn io_result(r: Result<usize, ()>, len: usize) -> (out: Result<(), MscIoError>)
    ensures
        r == Ok::<usize, ()>(len) ==> out == Ok::<(), MscIoError>(()),
        (r matches Ok(n) && n != len) ==> out == Err::<(), MscIoError>(MscIoError::Undersized),
        r is Err ==> out == Err::<(), MscIoError>(MscIoError::Usb),
{
    match r {
        Ok(n) => if n == len { Ok(()) } else { Err(MscIoError::Undersized) },
        Err(_) => Err(MscIoError::Usb),
    }
}

} // verus!
