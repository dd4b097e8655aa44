//! Register-level rules shared by the PCI and MMIO bindings of a VirtIO
//! device.
use vstd::prelude::*;

verus! {

/// Device status: reset.
pub const STATUS_RESET: u8 = 0x0;
/// Device status: the driver has noticed the device.
pub const STATUS_ACKNOWLEDGE: u8 = 0x1;
/// Device status: the driver is ready.
pub const STATUS_DRIVER_OK: u8 = 0x4;
/// Size of the device-specific configuration window.
pub const CFG_WINDOW: usize = 0x100;
/// Offset of the device-specific configuration in the MMIO window.
pub const MMIO_CFG_BASE: usize = 0x100;

/// Registers of the PCI common configuration structure.
#[derive(Copy, Clone, Debug, PartialEq, Eq, Structural)]
pub enum PciCommonReg {
    DeviceFeatureSelect,
    DeviceFeature,
    DriverFeatureSelect,
    DriverFeature,
    MsixConfig,
    NumQueues,
    DeviceStatus,
    ConfigGeneration,
    QueueSelect,
    QueueSize,
    QueueMsixVector,
    QueueEnable,
    QueueNotifyOff,
    QueueDesc,
    QueueAvail,
    QueueUsed,
}

impl PciCommonReg {
    pub open spec fn offset_spec(self) -> usize {
        match self {
            PciCommonReg::DeviceFeatureSelect => 0x0,
            PciCommonReg::DeviceFeature => 0x4,
            PciCommonReg::DriverFeatureSelect => 0x8,
            PciCommonReg::DriverFeature => 0xC,
            PciCommonReg::MsixConfig => 0x10,
            PciCommonReg::NumQueues => 0x12,
            PciCommonReg::DeviceStatus => 0x14,
            PciCommonReg::ConfigGeneration => 0x15,
            PciCommonReg::QueueSelect => 0x16,
            PciCommonReg::QueueSize => 0x18,
            PciCommonReg::QueueMsixVector => 0x1a,
            PciCommonReg::QueueEnable => 0x1c,
            PciCommonReg::QueueNotifyOff => 0x1e,
            PciCommonReg::QueueDesc => 0x20,
            PciCommonReg::QueueAvail => 0x28,
            PciCommonReg::QueueUsed => 0x30,
        }
    }

    /// Byte offset of the register.
    pub fn offset(self) -> (r: usize)
        ensures
            r == self.offset_spec(),
    {
        match self {
            PciCommonReg::DeviceFeatureSelect => 0x0,
            PciCommonReg::DeviceFeature => 0x4,
            PciCommonReg::DriverFeatureSelect => 0x8,
            PciCommonReg::DriverFeature => 0xC,
            PciCommonReg::MsixConfig => 0x10,
            PciCommonReg::NumQueues => 0x12,
            PciCommonReg::DeviceStatus => 0x14,
            PciCommonReg::ConfigGeneration => 0x15,
            PciCommonReg::QueueSelect => 0x16,
            PciCommonReg::QueueSize => 0x18,
            PciCommonReg::QueueMsixVector => 0x1a,
            PciCommonReg::QueueEnable => 0x1c,
            PciCommonReg::QueueNotifyOff => 0x1e,
            PciCommonReg::QueueDesc => 0x20,
            PciCommonReg::QueueAvail => 0x28,
            PciCommonReg::QueueUsed => 0x30,
        }
    }
}

/// Size of a queue: nothing when the device offers none (maximum 0), the
/// maximum when the request is 0 or too large, else the request.
pub fn choose_queue_size(requested: usize, max_size: usize) -> (r: Option<usize>)
    ensures
        max_size == 0 ==> r is None,
        max_size != 0 && (requested == 0 || requested > max_size) ==> r == Some(max_size),
        max_size != 0 && !(requested == 0 || requested > max_size) ==> r == Some(requested),
{
    if max_size == 0 {
        None
    } else if requested == 0 || requested > max_size {
        Some(max_size)
    } else {
        Some(requested)
    }
}

/// The features both sides support.
pub fn negotiate_features(dev_supported: u32, supported: u32) -> (r: u32)
    ensures
        r == dev_supported & supported,
{
    dev_supported & supported
}

/// A 64-bit address as its low and high 32-bit halves.
pub fn split_addr(addr: u64) -> (r: (u32, u32))
    ensures
        r.0 == addr as u32,
        r.1 == (addr >> 32u64) as u32,
        r.0 as int + r.1 as int * 0x1_0000_0000 == addr as int,
{
    let lo = addr as u32;
    let hi = (addr >> 32) as u32;
    assert(lo as u64 + (hi as u64) * 0x1_0000_0000u64 == addr) by (bit_vector)
        requires
            lo == addr as u32,
            hi == (addr >> 32u64) as u32,
    ;
    (lo, hi)
}

/// Page number of the descriptor table, as the legacy MMIO interface takes
/// it (truncated to 32 bits).
pub fn mmio_queue_pfn(desc_phys: u64) -> (r: u32)
    ensures
        r == (desc_phys / 0x1000) as u32,
{
    (desc_phys / 0x1000) as u32
}

/// Offset in the notify region at which queue `notify_off` is notified.
pub fn pci_notify_offset(notify_off: u16, mult: u32) -> (r: u32)
    requires
        notify_off as int * mult as int <= u32::MAX,
    ensures
        r == notify_off as int * mult as int,
{
    notify_off as u32 * mult
}

/// A configuration access of `width` bytes at `ofs` lies inside the
/// device-specific window.
pub open spec fn cfg_access_ok(ofs: usize, width: usize) -> bool {
    ofs + width <= CFG_WINDOW
}

/// MMIO offset of byte `ofs` of the device-specific configuration.
pub fn mmio_cfg_offset(ofs: usize, width: usize) -> (r: usize)
    requires
        cfg_access_ok(ofs, width),
    ensures
        r == MMIO_CFG_BASE + ofs,
{
    MMIO_CFG_BASE + ofs
}

/// What an MMIO interrupt status says: a queue was updated, the
/// configuration changed, and whether the interrupt was ours at all.
#[derive(Copy, Clone, Debug, PartialEq, Eq, Structural)]
pub struct MmioInterrupt {
    pub queue_update: bool,
    pub config_change: bool,
    pub handled: bool,
}

/// Decode the MMIO interrupt status (bit 0: used buffer, bit 1:
/// configuration change); the whole value is acknowledged.
pub fn mmio_interrupt(status: u32) -> (r: MmioInterrupt)
    ensures
        r.queue_update == (status & 1 != 0),
        r.config_change == (status & 2 != 0),
        r.handled == (status != 0),
{
    MmioInterrupt { queue_update: status & 1 != 0, config_change: status & 2 != 0, handled: status != 0 }
}

/// A PCI queue index the device offers.
pub fn pci_queue_exists(idx: usize, nqueues: usize) -> (r: bool)
    ensures
        r == (idx < nqueues),
{
    idx < nqueues
}

} // verus!
