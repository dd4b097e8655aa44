//! Hardware definitions: registers, the communication area, endpoint and
//! transfer descriptors.
use vstd::prelude::*;

verus! {

/// Operational registers (by word index).
#[derive(Copy, Clone, Debug, PartialEq, Eq, Structural)]
pub enum Regs {
    HcRevision,
    HcControl,
    HcCommandStatus,
    HcInterruptStatus,
    HcInterruptEnable,
    HcInterruptDisable,
    HcHCCA,
    HcPeriodCurrentED,
    HcControlHeadED,
    HcControlCurrentED,
    HcBulkHeadED,
    HcBulkCurrentED,
    HcDoneHead,
    HcFmInterval,
    HcFmRemaining,
    HcFmNumber,
    HcPeriodicStart,
    HcLSThreshold,
    HcRhDescriptorA,
    HcRhDescriptorB,
    HcRhStatus,
    HcRhPortStatus0,
    HcRhPortStatus1,
    HcRhPortStatus2,
    HcRhPortStatus3,
    HcRhPortStatus4,
    HcRhPortStatus5,
    HcRhPortStatus6,
    HcRhPortStatus7,
    HcRhPortStatus8,
    HcRhPortStatus9,
    HcRhPortStatus10,
    HcRhPortStatus11,
    HcRhPortStatus12,
    HcRhPortStatus13,
    HcRhPortStatus14,
    HcRhPortStatus15,
}

/// Word index of a register.
pub open spec fn reg_index(r: Regs) -> usize {
    match r {
        Regs::HcRevision => 0,
        Regs::HcControl => 1,
        Regs::HcCommandStatus => 2,
        Regs::HcInterruptStatus => 3,
        Regs::HcInterruptEnable => 4,
        Regs::HcInterruptDisable => 5,
        Regs::HcHCCA => 6,
        Regs::HcPeriodCurrentED => 7,
        Regs::HcControlHeadED => 8,
        Regs::HcControlCurrentED => 9,
        Regs::HcBulkHeadED => 10,
        Regs::HcBulkCurrentED => 11,
        Regs::HcDoneHead => 12,
        Regs::HcFmInterval => 13,
        Regs::HcFmRemaining => 14,
        Regs::HcFmNumber => 15,
        Regs::HcPeriodicStart => 16,
        Regs::HcLSThreshold => 17,
        Regs::HcRhDescriptorA => 18,
        Regs::HcRhDescriptorB => 19,
        Regs::HcRhStatus => 20,
        Regs::HcRhPortStatus0 => 21,
        Regs::HcRhPortStatus1 => 22,
        Regs::HcRhPortStatus2 => 23,
        Regs::HcRhPortStatus3 => 24,
        Regs::HcRhPortStatus4 => 25,
        Regs::HcRhPortStatus5 => 26,
        Regs::HcRhPortStatus6 => 27,
        Regs::HcRhPortStatus7 => 28,
        Regs::HcRhPortStatus8 => 29,
        Regs::HcRhPortStatus9 => 30,
        Regs::HcRhPortStatus10 => 31,
        Regs::HcRhPortStatus11 => 32,
        Regs::HcRhPortStatus12 => 33,
        Regs::HcRhPortStatus13 => 34,
        Regs::HcRhPortStatus14 => 35,
        Regs::HcRhPortStatus15 => 36,
    }
}

impl Regs {
    /// Word index of the register.
    pub fn index(&self) -> (r: usize)
        ensures
            r == reg_index(*self),
    {
        match self {
        Regs::HcRevision => 0,
        Regs::HcControl => 1,
        Regs::HcCommandStatus => 2,
        Regs::HcInterruptStatus => 3,
        Regs::HcInterruptEnable => 4,
        Regs::HcInterruptDisable => 5,
        Regs::HcHCCA => 6,
        Regs::HcPeriodCurrentED => 7,
        Regs::HcControlHeadED => 8,
        Regs::HcControlCurrentED => 9,
        Regs::HcBulkHeadED => 10,
        Regs::HcBulkCurrentED => 11,
        Regs::HcDoneHead => 12,
        Regs::HcFmInterval => 13,
        Regs::HcFmRemaining => 14,
        Regs::HcFmNumber => 15,
        Regs::HcPeriodicStart => 16,
        Regs::HcLSThreshold => 17,
        Regs::HcRhDescriptorA => 18,
        Regs::HcRhDescriptorB => 19,
        Regs::HcRhStatus => 20,
        Regs::HcRhPortStatus0 => 21,
        Regs::HcRhPortStatus1 => 22,
        Regs::HcRhPortStatus2 => 23,
        Regs::HcRhPortStatus3 => 24,
        Regs::HcRhPortStatus4 => 25,
        Regs::HcRhPortStatus5 => 26,
        Regs::HcRhPortStatus6 => 27,
        Regs::HcRhPortStatus7 => 28,
        Regs::HcRhPortStatus8 => 29,
        Regs::HcRhPortStatus9 => 30,
        Regs::HcRhPortStatus10 => 31,
        Regs::HcRhPortStatus11 => 32,
        Regs::HcRhPortStatus12 => 33,
        Regs::HcRhPortStatus13 => 34,
        Regs::HcRhPortStatus14 => 35,
        Regs::HcRhPortStatus15 => 36,
        }
    }

    /// The register with a given word index.
    pub fn from_index(i: usize) -> (r: Regs)
        requires
            i < 37,
        ensures
            reg_index(r) == i,
    {
    if i == 0 { Regs::HcRevision }
    else if i == 1 { Regs::HcControl }
    else if i == 2 { Regs::HcCommandStatus }
    else if i == 3 { Regs::HcInterruptStatus }
    else if i == 4 { Regs::HcInterruptEnable }
    else if i == 5 { Regs::HcInterruptDisable }
    else if i == 6 { Regs::HcHCCA }
    else if i == 7 { Regs::HcPeriodCurrentED }
    else if i == 8 { Regs::HcControlHeadED }
    else if i == 9 { Regs::HcControlCurrentED }
    else if i == 10 { Regs::HcBulkHeadED }
    else if i == 11 { Regs::HcBulkCurrentED }
    else if i == 12 { Regs::HcDoneHead }
    else if i == 13 { Regs::HcFmInterval }
    else if i == 14 { Regs::HcFmRemaining }
    else if i == 15 { Regs::HcFmNumber }
    else if i == 16 { Regs::HcPeriodicStart }
    else if i == 17 { Regs::HcLSThreshold }
    else if i == 18 { Regs::HcRhDescriptorA }
    else if i == 19 { Regs::HcRhDescriptorB }
    else if i == 20 { Regs::HcRhStatus }
    else if i == 21 { Regs::HcRhPortStatus0 }
    else if i == 22 { Regs::HcRhPortStatus1 }
    else if i == 23 { Regs::HcRhPortStatus2 }
    else if i == 24 { Regs::HcRhPortStatus3 }
    else if i == 25 { Regs::HcRhPortStatus4 }
    else if i == 26 { Regs::HcRhPortStatus5 }
    else if i == 27 { Regs::HcRhPortStatus6 }
    else if i == 28 { Regs::HcRhPortStatus7 }
    else if i == 29 { Regs::HcRhPortStatus8 }
    else if i == 30 { Regs::HcRhPortStatus9 }
    else if i == 31 { Regs::HcRhPortStatus10 }
    else if i == 32 { Regs::HcRhPortStatus11 }
    else if i == 33 { Regs::HcRhPortStatus12 }
    else if i == 34 { Regs::HcRhPortStatus13 }
    else if i == 35 { Regs::HcRhPortStatus14 }
    else if i == 36 { Regs::HcRhPortStatus15 }
        else { Regs::HcRhPortStatus15 }
    }

    /// Byte offset of the register.
    pub fn offset(&self) -> (r: usize)
        ensures
            r == 4 * reg_index(*self),
    {
        self.index() * 4
    }
}

/// Each register has its own offset, as the OHCI specification lays them
/// out: HcControl at 0x04, HcCommandStatus 0x08, HcInterruptStatus 0x0C,
/// HcHCCA 0x18, HcControlHeadED 0x20, HcBulkHeadED 0x28, HcFmInterval 0x34,
/// HcPeriodicStart 0x40, HcRhDescriptorA 0x48 and the port status
/// registers from 0x54, one word each.
pub proof fn lemma_register_layout(r1: Regs, r2: Regs)
    ensures
        r1 != r2 ==> reg_index(r1) != reg_index(r2),
        4 * reg_index(Regs::HcControl) == 0x04,
        4 * reg_index(Regs::HcCommandStatus) == 0x08,
        4 * reg_index(Regs::HcInterruptStatus) == 0x0C,
        4 * reg_index(Regs::HcHCCA) == 0x18,
        4 * reg_index(Regs::HcControlHeadED) == 0x20,
        4 * reg_index(Regs::HcBulkHeadED) == 0x28,
        4 * reg_index(Regs::HcFmInterval) == 0x34,
        4 * reg_index(Regs::HcPeriodicStart) == 0x40,
        4 * reg_index(Regs::HcRhDescriptorA) == 0x48,
        4 * reg_index(Regs::HcRhPortStatus0) == 0x54,
        4 * reg_index(Regs::HcRhPortStatus15) == 0x54 + 4 * 15,
{
}

/// Command status: host controller reset
pub const HCCMDSTATUS_HCR: u32 = 0x1;
/// Command status: control list filled
pub const HCCMDSTATUS_CLF: u32 = 0x2;
/// Command status: bulk list filled
pub const HCCMDSTATUS_BLF: u32 = 0x4;
/// Command status: ownership change request
pub const HCCMDSTATUS_OCR: u32 = 0x8;

/// Host controller communication area (256 bytes).
pub struct Hcca {
    pub interrupt_table: [u32; 32],
    pub frame_number: u16,
    pub _pad1: u16,
    pub done_head: u32,
    pub _reserved: [u32; 29],
}

/// An endpoint descriptor (16 bytes).
///
/// `flags`: 6:0 address, 10:7 endpoint, 12:11 direction, 13 speed, 14 skip,
/// 15 format, 26:16 max packet size.
#[derive(Copy, Clone, Debug, PartialEq, Eq, Structural)]
pub struct Endpoint {
    pub flags: u32,
    pub tail_ptr: u32,
    pub head_ptr: u32,
    /// Next endpoint descriptor in the chain (zero ends it)
    pub next_ed: u32,
}

/// A general (non-isochronous) transfer descriptor (32 bytes).
#[derive(Copy, Clone, Debug)]
pub struct GeneralTD {
    /// 18 rounding, 20:19 direction, 23:21 delay interrupt, 25:24 toggle,
    /// 27:26 error count, 31:28 condition code
    pub flags: u32,
    /// Current buffer pointer
    pub cbp: u32,
    pub next_td: u32,
    /// Address of the last byte of the buffer
    pub buffer_end: u32,
    pub meta_async_handle: u64,
    pub _meta_unused: u64,
}

/// The interrupt tree in the communication page: 16 lists of 16 ms, 8 of
/// 8 ms, 4 of 4 ms, 2 of 2 ms, 1 of 1 ms, and the endpoint that ends them.
pub struct IntLists {
    pub int_16ms: [Endpoint; 16],
    pub int_8ms: [Endpoint; 8],
    pub int_4ms: [Endpoint; 4],
    pub int_2ms: [Endpoint; 2],
    pub int_1ms: [Endpoint; 1],
    pub stop_endpoint: Endpoint,
}

} // verus!
