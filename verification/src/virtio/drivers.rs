//! Recognising VirtIO devices on their buses: the MMIO device-tree match,
//! the PCI IDs, and the PCI capabilities that locate the register regions.
use vstd::prelude::*;
use crate::vfs::path::bytes_eq;

verus! {

/// "virt", the magic value of an MMIO device.
pub const MMIO_MAGIC: u32 = 0x74726976;
/// PCI vendor of VirtIO devices.
pub const VIRTIO_PCI_VENDOR: u32 = 0x1AF4;
/// Capability ID of a vendor-specific PCI capability.
pub const PCI_CAP_ID_VENDOR: u8 = 9;

/// The `compatible` string of an MMIO VirtIO device.
pub open spec fn mmio_compatible() -> Seq<u8> {
    seq![0x76u8, 0x69, 0x72, 0x74, 0x69, 0x6F, 0x2C, 0x6D, 0x6D, 0x69, 0x6F]
}

/// Match strength of a device-tree node: 1 for "virtio,mmio", else 0.
pub fn mmio_handles(compatible: &[u8]) -> (r: u32)
    ensures
        r == (if compatible@ == mmio_compatible() { 1u32 } else { 0u32 }),
{
    let expect: [u8; 11] = [0x76, 0x69, 0x72, 0x74, 0x69, 0x6F, 0x2C, 0x6D, 0x6D, 0x69, 0x6F];
    assert(expect@ =~= mmio_compatible());
    if bytes_eq(compatible, expect.as_slice()) {
        1
    } else {
        0
    }
}

/// An MMIO register window that carries the VirtIO magic value.
pub fn mmio_magic_ok(magic: u32) -> (r: bool)
    ensures
        r == (magic == MMIO_MAGIC),
{
    magic == MMIO_MAGIC
}

/// Match strength of a PCI function: 2 for a VirtIO vendor and device ID
/// (0x1000 to 0x107F), else 0.
pub fn pci_handles(vendor: u32, device: u32) -> (r: u32)
    ensures
        r == (if vendor == VIRTIO_PCI_VENDOR && 0x1000 <= device <= 0x107F { 2u32 } else { 0u32 }),
{
    if vendor == VIRTIO_PCI_VENDOR && (0x1000 <= device && device <= 0x107F) {
        2
    } else {
        0
    }
}

/// PCI device IDs that name a VirtIO device type.
pub open spec fn pci_id_known(device: u32) -> bool {
    (0x1000 <= device <= 0x1005) || device == 0x1009 || (0x1040 <= device <= 0x107F)
}

/// The VirtIO device type of a PCI device ID.
pub open spec fn pci_device_type_spec(device: u32) -> u32 {
    if device == 0x1000 {
        1
    } else if device == 0x1001 {
        2
    } else if device == 0x1002 {
        5
    } else if device == 0x1003 {
        3
    } else if device == 0x1004 {
        8
    } else if device == 0x1005 {
        4
    } else if device == 0x1009 {
        9
    } else {
        (device - 0x1040) as u32
    }
}

/// The VirtIO device type of a PCI device ID: transitional IDs (network,
/// block, balloon, console, SCSI, entropy, 9P) by table, modern IDs as
/// 0x1040 plus the type.
pub fn pci_device_type(device: u32) -> (r: u32)
    requires
        pci_id_known(device),
    ensures
        r == pci_device_type_spec(device),
{
    if device == 0x1000 {
        1
    } else if device == 0x1001 {
        2
    } else if device == 0x1002 {
        5
    } else if device == 0x1003 {
        3
    } else if device == 0x1004 {
        8
    } else if device == 0x1005 {
        4
    } else if device == 0x1009 {
        9
    } else {
        device - 0x1040
    }
}

/// Where the capability list starts: the pointer at 0x34 (low two bits
/// cleared) when the status register (high half of dword 4) says there is
/// a list, else 0 (no list).
pub fn capability_list_start(cmd_status: u32, cap_ptr_reg: u32) -> (r: u8)
    ensures
        r == (if (cmd_status >> 16u32) & 0x10 != 0 { (cap_ptr_reg & 0xFC) as u8 } else { 0u8 }),
{
    if (cmd_status >> 16) & 0x10 != 0 {
        proof {
            crate::bits::lemma_u32_and_le(cap_ptr_reg, 0xFC);
        }
        (cap_ptr_reg & 0xFC) as u8
    } else {
        0
    }
}

/// A PCI capability header: its ID, the next capability, its length and its
/// first type-specific byte, found at offset `ofs` of configuration space.
#[derive(Copy, Clone, Debug, PartialEq, Eq, Structural)]
pub struct Capability {
    pub id: u8,
    pub ofs: u8,
    pub len: u8,
    pub byte0: u8,
    pub next: u8,
}

impl Capability {
    /// Decode the header dword read at `ofs`.
    pub fn from_header(ofs: u8, cap_hdr: u32) -> (r: Capability)
        ensures
            r.id == cap_hdr as u8,
            r.next == (cap_hdr >> 8u32) as u8,
            r.len == (cap_hdr >> 16u32) as u8,
            r.byte0 == (cap_hdr >> 24u32) as u8,
            r.ofs == ofs,
    {
        Capability {
            id: cap_hdr as u8,
            ofs,
            len: (cap_hdr >> 16) as u8,
            byte0: (cap_hdr >> 24) as u8,
            next: (cap_hdr >> 8) as u8,
        }
    }

    /// Configuration-space offset of dword `idx` of the capability.
    pub fn dword_offset(&self, idx: usize) -> (r: usize)
        requires
            idx < self.len as usize / 4,
        ensures
            r == self.ofs as int + idx * 4,
    {
        self.ofs as usize + idx * 4
    }
}

/// The VirtIO register regions (each a BAR, an offset into it and a
/// length) found so far among the capabilities (the
/// first of each kind is kept).
#[derive(Copy, Clone, Debug)]
pub struct ProtoBars {
    pub common: Option<(usize, usize, usize)>,
    pub dev_cfg: Option<(usize, usize, usize)>,
    pub notify: Option<((usize, usize, usize), u32)>,
    pub isr: Option<(usize, usize, usize)>,
}

/// All four regions, once found: common, notify (with its offset
/// multiplier), ISR and device configuration.
#[derive(Copy, Clone, Debug)]
pub struct PciRegionSet {
    pub common: (usize, usize, usize),
    pub notify: (usize, usize, usize),
    pub notify_off_mult: u32,
    pub isr: (usize, usize, usize),
    pub dev_cfg: (usize, usize, usize),
}

impl ProtoBars {
    /// Nothing found yet.
    pub fn new() -> (r: ProtoBars)
        ensures
            r.common is None && r.dev_cfg is None && r.notify is None && r.isr is None,
    {
        ProtoBars { common: None, dev_cfg: None, notify: None, isr: None }
    }

    /// Take in a vendor capability of configuration type `cfg_type`
    /// describing `io` (and, for the notify region, the multiplier): common
    /// (1), notify (2), ISR (3) and device configuration (4) are kept if none
    /// of their kind was seen yet; other types are ignored.
    pub fn add(&mut self, cfg_type: u8, io: (usize, usize, usize), notify_mult: u32)
        ensures
            final(self).common == (if cfg_type == 1 && old(self).common is None { Some(io) } else { old(self).common }),
            final(self).notify == (if cfg_type == 2 && old(self).notify is None { Some((io, notify_mult)) } else { old(self).notify }),
            final(self).isr == (if cfg_type == 3 && old(self).isr is None { Some(io) } else { old(self).isr }),
            final(self).dev_cfg == (if cfg_type == 4 && old(self).dev_cfg is None { Some(io) } else { old(self).dev_cfg }),
    {
        if cfg_type == 1 {
            if self.common.is_none() {
                self.common = Some(io);
            }
        } else if cfg_type == 2 {
            if self.notify.is_none() {
                self.notify = Some((io, notify_mult));
            }
        } else if cfg_type == 3 {
            if self.isr.is_none() {
                self.isr = Some(io);
            }
        } else if cfg_type == 4 {
            if self.dev_cfg.is_none() {
                self.dev_cfg = Some(io);
            }
        }
    }

    /// The full set of regions, if every kind was found.
    pub fn complete(&self) -> (r: Option<PciRegionSet>)
        ensures
            (self.common is Some && self.dev_cfg is Some && self.notify is Some && self.isr is Some) <==> r is Some,
            r matches Some(s) ==> (Some(s.common) == self.common && Some(s.dev_cfg) == self.dev_cfg
                && Some((s.notify, s.notify_off_mult)) == self.notify && Some(s.isr) == self.isr),
    {
        match (self.common, self.dev_cfg, self.notify, self.isr) {
            (Some(common), Some(dev_cfg), Some((notify, mult)), Some(isr)) => Some(
                PciRegionSet { common, notify, notify_off_mult: mult, isr, dev_cfg },
            ),
            _ => None,
        }
    }
}

} // verus!
