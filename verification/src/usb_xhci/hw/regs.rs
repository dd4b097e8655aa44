//! Controller register layout: the capability parameters read once at
//! start-up, and the offsets of the operational, port, doorbell and runtime
//! registers.
use vstd::prelude::*;

verus! {

/// Run/stop
pub const USBCMD_RS: u32 = 0x1;
/// Host Controller Reset
pub const USBCMD_HCRST: u32 = 0x2;
/// Interrupter Enable
pub const USBCMD_INTE: u32 = 0x4;
/// Host controller halted
pub const USBSTS_HCH: u32 = 0x1;
/// Host system error
pub const USBSTS_HSE: u32 = 0x4;
/// Event Interrupt
pub const USBSTS_EINT: u32 = 0x8;
/// Port Change Detect
pub const USBSTS_PCD: u32 = 0x10;
/// Controller not ready
pub const USBSTS_CNR: u32 = 0x800;
/// Host Controller Error
pub const USBSTS_HCE: u32 = 0x1000;
/// Port: current connect status
pub const PORTSC_CCS: u32 = 0x1;
/// Port: enabled
pub const PORTSC_PED: u32 = 0x2;

/// The controller's capability registers, as read when it was bound.
pub struct Regs {
    /// Length of the capability block: the operational registers follow it
    pub caplength: u8,
    /// Offset of the doorbell registers
    pub dboff: u32,
    /// Offset of the runtime registers
    pub rtsoff: u32,
    /// HCSPARAMS1
    pub hcs_params_1: u32,
    /// HCSPARAMS2
    pub hcs_params_2: u32,
    /// HCSPARAMS3
    pub hcs_params_3: u32,
}

impl Regs {
    /// Record the capability registers.
    pub fn new(
        caplength: u8,
        dboff: u32,
        rtsoff: u32,
        hcs_params_1: u32,
        hcs_params_2: u32,
        hcs_params_3: u32,
    ) -> (r: Regs)
        ensures
            r.caplength == caplength,
            r.dboff == dboff,
            r.rtsoff == rtsoff,
            r.hcs_params_1 == hcs_params_1,
            r.hcs_params_2 == hcs_params_2,
            r.hcs_params_3 == hcs_params_3,
    {
        Regs { caplength, dboff, rtsoff, hcs_params_1, hcs_params_2, hcs_params_3 }
    }

    /// Number of device slots supported by the controller.
    pub fn max_slots(&self) -> (r: u8)
        ensures
            r == self.hcs_params_1 & 0xFF,
    {
        let v = self.hcs_params_1;
        proof { crate::bits::lemma_u32_and_le(v, 0xFF); }
        (self.hcs_params_1 & 0xFF) as u8
    }

    /// Number of interrupters.
    pub fn max_intrs(&self) -> (r: u16)
        ensures
            r == (self.hcs_params_1 >> 8u32) & 0x3FF,
    {
        let v = self.hcs_params_1;
        proof { crate::bits::lemma_u32_and_le(v >> 8u32, 0x3FF); }
        ((self.hcs_params_1 >> 8) & 0x3FF) as u16
    }

    /// Number of ports in the root hub.
    pub fn max_ports(&self) -> (r: u8)
        ensures
            r == (self.hcs_params_1 >> 24u32) & 0xFF,
    {
        let v = self.hcs_params_1;
        proof { crate::bits::lemma_u32_and_le(v >> 24u32, 0xFF); }
        ((self.hcs_params_1 >> 24) & 0xFF) as u8
    }

    /// Isochronous scheduling threshold.
    pub fn ist(&self) -> (r: u8)
        ensures
            r == self.hcs_params_2 & 0xF,
    {
        let v = self.hcs_params_2;
        proof { crate::bits::lemma_u32_and_le(v, 0xF); }
        (self.hcs_params_2 & 0xF) as u8
    }

    /// Event ring segment table maximum (as a power of two).
    pub fn erst_max(&self) -> (r: u8)
        ensures
            r == (self.hcs_params_2 >> 4u32) & 0xF,
    {
        let v = self.hcs_params_2;
        proof { crate::bits::lemma_u32_and_le(v >> 4u32, 0xF); }
        ((self.hcs_params_2 >> 4) & 0xF) as u8
    }

    /// High 5 bits of the number of scratchpad buffers.
    pub fn max_scratchpad_buffers_hi(&self) -> (r: u16)
        ensures
            r == (self.hcs_params_2 >> 21u32) & 0x1F,
    {
        let v = self.hcs_params_2;
        proof { crate::bits::lemma_u32_and_le(v >> 21u32, 0x1F); }
        ((self.hcs_params_2 >> 21) & 0x1F) as u16
    }

    /// The scratchpad must be kept across suspend and restore.
    pub fn scratchpad_restore(&self) -> (r: bool)
        ensures
            r == (self.hcs_params_2 & 0x400_0000 != 0),
    {
        self.hcs_params_2 & 0x400_0000 != 0
    }

    /// Low 5 bits of the number of scratchpad buffers.
    pub fn max_scratchpad_buffers_lo(&self) -> (r: u16)
        ensures
            r == (self.hcs_params_2 >> 27u32) & 0x1F,
    {
        let v = self.hcs_params_2;
        proof { crate::bits::lemma_u32_and_le(v >> 27u32, 0x1F); }
        ((self.hcs_params_2 >> 27) & 0x1F) as u16
    }

    pub open spec fn max_scratchpad_buffers_spec(&self) -> int {
        ((self.hcs_params_2 >> 21u32) & 0x1F) * 32 + ((self.hcs_params_2 >> 27u32) & 0x1F)
    }

    /// Number of scratchpad buffers the controller needs (at most 1023).
    pub fn max_scratchpad_buffers(&self) -> (r: u16)
        ensures
            r == self.max_scratchpad_buffers_spec(),
            r < 1024,
    {
        let v = self.hcs_params_2;
        proof {
            crate::bits::lemma_u32_and_le(v >> 21u32, 0x1F);
            crate::bits::lemma_u32_and_le(v >> 27u32, 0x1F);
        }
        let hi = self.max_scratchpad_buffers_hi();
        let lo = self.max_scratchpad_buffers_lo();
        assert((hi << 5u16) | lo == hi * 32 + lo) by (bit_vector)
            requires
                hi < 32,
                lo < 32,
        ;
        (hi << 5) | lo
    }

    /// U1 device exit latency.
    pub fn u1_device_exit_latency(&self) -> (r: u16)
        ensures
            r == self.hcs_params_3 & 0xFFFF,
    {
        let v = self.hcs_params_3;
        proof { crate::bits::lemma_u32_and_le(v, 0xFFFF); }
        (self.hcs_params_3 & 0xFFFF) as u16
    }

    /// U2 device exit latency.
    pub fn u2_device_exit_latency(&self) -> (r: u16)
        ensures
            r == (self.hcs_params_3 >> 16u32) & 0xFFFF,
    {
        let v = self.hcs_params_3;
        proof { crate::bits::lemma_u32_and_le(v >> 16u32, 0xFFFF); }
        ((self.hcs_params_3 >> 16) & 0xFFFF) as u16
    }

    /// Offset of an operational register.
    pub fn op_ofs(&self, ofs: usize) -> (r: usize)
        requires
            self.caplength + ofs <= usize::MAX,
        ensures
            r == self.caplength + ofs,
    {
        self.caplength as usize + ofs
    }

    /// Registers of root-hub port `index`.
    pub fn port(&self, index: u8) -> (r: PortRegs<'_>)
        ensures
            r.parent == self,
            r.index == index,
    {
        PortRegs { parent: self, index }
    }

    /// Offset of the doorbell register `index`.
    pub fn doorbell_ofs(&self, index: u8) -> (r: usize)
        requires
            self.dboff + 4 * index <= usize::MAX,
        ensures
            r == self.dboff + 4 * index,
    {
        self.dboff as usize + index as usize * 4
    }

    /// Offset of the microframe index register.
    pub fn mfindex_ofs(&self) -> (r: usize)
        ensures
            r == self.rtsoff,
    {
        self.rtsoff as usize
    }

    /// Registers of interrupter `index` (there are at most 1024).
    pub fn interrupter(&self, index: u16) -> (r: Interrupter<'_>)
        requires
            index < 1024,
        ensures
            r.parent == self,
            r.index == index,
    {
        Interrupter { parent: self, index }
    }
}

/// The registers of one root-hub port.
pub struct PortRegs<'a> {
    pub parent: &'a Regs,
    pub index: u8,
}

impl PortRegs<'_> {
    /// Offset of a register of this port (PORTSC is at 0).
    pub fn ofs(&self, ofs: usize) -> (r: usize)
        requires
            ofs <= usize::MAX - 0x1500,
        ensures
            r == self.parent.caplength + 0x400 + 0x10 * self.index + ofs,
    {
        self.parent.caplength as usize + 0x400 + 0x10 * self.index as usize + ofs
    }
}

/// The registers of one interrupter.
pub struct Interrupter<'a> {
    pub parent: &'a Regs,
    pub index: u16,
}

impl Interrupter<'_> {
    /// Offset of a register of this interrupter (IMAN at 0, ERDP at 0x18).
    pub fn ofs(&self, ofs: usize) -> (r: usize)
        requires
            self.index < 1024,
            self.parent.rtsoff + 0x20 + 0x20 * self.index + ofs <= usize::MAX,
        ensures
            r == self.parent.rtsoff + 0x20 + 0x20 * self.index + ofs,
    {
        self.parent.rtsoff as usize + 0x20 + 0x20 * self.index as usize + ofs
    }

    /// Start of this interrupter's register block (the first 0x20 bytes of
    /// the runtime registers hold MFINDEX).
    pub open spec fn base(&self) -> int {
        self.parent.rtsoff + 0x20 + 0x20 * self.index
    }

    /// This interrupter's register block fits the address space.
    pub open spec fn fits(&self) -> bool {
        self.index < 1024 && self.base() + 0x20 <= usize::MAX
    }

    /// IMAN (interrupter management: 0 pending, 1 enable).
    pub fn iman_ofs(&self) -> (r: usize)
        requires
            self.fits(),
        ensures
            r == self.base() + 0x00,
    {
        self.ofs(0x00)
    }

    /// IMOD (interrupt moderation interval and counter).
    pub fn imod_ofs(&self) -> (r: usize)
        requires
            self.fits(),
        ensures
            r == self.base() + 0x04,
    {
        self.ofs(0x04)
    }

    /// ERSTSZ (number of event ring segment table entries).
    pub fn erstsz_ofs(&self) -> (r: usize)
        requires
            self.fits(),
        ensures
            r == self.base() + 0x08,
    {
        self.ofs(0x08)
    }

    /// ERSTBA (event ring segment table base address, 64 bits).
    pub fn erstba_ofs(&self) -> (r: usize)
        requires
            self.fits(),
        ensures
            r == self.base() + 0x10,
    {
        self.ofs(0x10)
    }

    /// ERDP (event ring dequeue pointer, 64 bits).
    pub fn erdp_ofs(&self) -> (r: usize)
        requires
            self.fits(),
        ensures
            r == self.base() + 0x18,
    {
        self.ofs(0x18)
    }
}

} // verus!
