//! Register layout of the controller.
use vstd::prelude::*;

verus! {

pub const USBCMD_RUN: u32 = 0x0001;
pub const USBCMD_HC_RESET: u32 = 0x0002;
pub const USBCMD_PERIODIC_ENABLE: u32 = 0x0010;
pub const USBCMD_ASYNC_ENABLE: u32 = 0x0020;
/// Interrupt on async advance doorbell
pub const USBCMD_IAAD: u32 = 0x0040;
/// Interrupt on completion (also in USBSTS)
pub const USBINTR_IOC: u32 = 0x0001;
/// A bus error was detected
pub const USBINTR_ERROR: u32 = 0x0002;
pub const USBINTR_PORT_CHANGE: u32 = 0x0004;
pub const USBINTR_FRAME_ROLLOVER: u32 = 0x0008;
pub const USBINTR_HOST_SYSTEM_ERROR: u32 = 0x0010;
pub const USBINTR_INTR_ASYNC_ADVANCE: u32 = 0x0020;
/// The controller is halted
pub const USBSTS_HC_HALTED: u32 = 0x1000;
/// The async queue is empty
pub const USBSTS_RECLAMATION: u32 = 0x2000;
pub const USBSTS_PERIODIC_ENABLED: u32 = 0x4000;
pub const USBSTS_ASYNC_ENABLED: u32 = 0x4000;
pub const PORTSC_CURRENT_CONNECT_STATUS: u32 = 0x0001;
pub const PORTSC_CONNECT_STATUS_CHANGE: u32 = 0x0002;
pub const PORTSC_PORT_ENABLED: u32 = 0x0004;
pub const PORTSC_PORT_ENABLE_CHANGE: u32 = 0x0008;
pub const PORTSC_OVERCURRENT_ACTIVE: u32 = 0x0010;
pub const PORTSC_OVERCURRENT_CHANGE: u32 = 0x0020;
pub const PORTSC_FORCE_PORT_RESUME: u32 = 0x0040;
pub const PORTSC_SUSPEND: u32 = 0x0080;
pub const PORTSC_PORT_RESET: u32 = 0x0100;
pub const PORTSC_PORT_POWER: u32 = 0x1000;
pub const PORTSC_PORT_OWNER: u32 = 0x2000;
pub const PORTSC_PORT_INDICATOR_MASK: u32 = 0xC000;
pub const PORTSC_PORT_INDICATOR_AMBER: u32 = 0x4000;
pub const PORTSC_PORT_INDICATOR_GREEN: u32 = 0x8000;

/// Operational registers.
#[derive(Copy, Clone, Debug, PartialEq, Eq, Structural)]
pub enum OpReg {
    /// USB command
    UsbCmd,
    /// USB status
    UsbSts,
    /// Interrupt enable
    UsbIntr,
    /// Current microframe number
    FrIndex,
    /// High 32 bits of addresses
    CtrlDsSegment,
    /// Periodic frame list base
    PeriodicListBase,
    /// Current asynchronous list address
    AsyncListAddr,
    /// Configure flag (routes ports to this controller)
    ConfigFlag,
    /// First port status and control register
    PortSc0,
}

/// Word index of an operational register.
pub open spec fn op_reg_index(r: OpReg) -> usize {
    match r {
        OpReg::UsbCmd => 0,
        OpReg::UsbSts => 1,
        OpReg::UsbIntr => 2,
        OpReg::FrIndex => 3,
        OpReg::CtrlDsSegment => 4,
        OpReg::PeriodicListBase => 5,
        OpReg::AsyncListAddr => 6,
        OpReg::ConfigFlag => 16,
        OpReg::PortSc0 => 17,
    }
}

impl OpReg {
    /// Word index of the register.
    pub fn index(&self) -> (r: usize)
        ensures
            r == op_reg_index(*self),
    {
        match self {
            OpReg::UsbCmd => 0,
            OpReg::UsbSts => 1,
            OpReg::UsbIntr => 2,
            OpReg::FrIndex => 3,
            OpReg::CtrlDsSegment => 4,
            OpReg::PeriodicListBase => 5,
            OpReg::AsyncListAddr => 6,
            OpReg::ConfigFlag => 16,
            OpReg::PortSc0 => 17,
        }
    }
}

/// A write the driver may make: reserved USBCMD bits clear, and never to
/// FRINDEX or directly to a port register.
pub open spec fn write_op_ok(reg: OpReg, v: u32) -> bool {
    match reg {
        OpReg::UsbCmd => v & 0xFF00_F400 == 0,
        OpReg::FrIndex => false,
        OpReg::PortSc0 => false,
        _ => true,
    }
}

/// The controller's capability values, as read when it was bound.
pub struct Regs {
    /// Length of the capability block
    pub cap_length: usize,
    /// Structural parameters
    pub hcs_params: u32,
}

impl Regs {
    pub fn new(cap_length: u8, hcs_params: u32) -> (r: Regs)
        ensures
            r.cap_length == cap_length,
            r.hcs_params == hcs_params,
    {
        Regs { cap_length: cap_length as usize, hcs_params }
    }

    /// Number of root-hub ports.
    pub fn nports(&self) -> (r: u8)
        ensures
            r == self.hcs_params & 0xF,
    {
        let p = self.hcs_params;
        let v = p & 0xF;
        proof {
            crate::bits::lemma_u32_and_le(p, 0xF);
        }
        v as u8
    }

    /// Offset of an operational register.
    pub fn op_ofs(&self, reg: OpReg) -> (r: usize)
        requires
            self.cap_length <= 0x100,
        ensures
            r == self.cap_length + 4 * op_reg_index(reg),
    {
        self.cap_length + reg.index() * 4
    }

    /// Offset of the status and control register of port `index` (below 16).
    pub fn port_sc_ofs(&self, index: u8) -> (r: usize)
        requires
            index < 16,
            self.cap_length <= 0x100,
        ensures
            r == self.cap_length + 4 * (17 + index),
    {
        self.cap_length + (OpReg::PortSc0.index() + index as usize) * 4
    }

    /// Whether the driver may write `v` to `reg`.
    pub fn write_op_allowed(&self, reg: OpReg, v: u32) -> (r: bool)
        ensures
            r == write_op_ok(reg, v),
    {
        match reg {
            OpReg::UsbCmd => v & 0xFF00_F400 == 0,
            OpReg::FrIndex => false,
            OpReg::PortSc0 => false,
            _ => true,
        }
    }
}

} // verus!
