//! The CRT controller's register file: a bank of 0x20 byte registers whose
//! timing fields are split across several registers.
use vstd::prelude::*;

verus! {

/// Number of CRT controller registers.
pub const CRTC_REG_COUNT: usize = 0x20;

/// Pixels per character clock.
pub const PIX_PER_CHAR: u16 = 16;

/// Bit `n` of `v` (0 or 1).
pub open spec fn bit_of(v: u16, n: u16) -> u8 {
    ((v >> n) & 1) as u8
}

/// The byte `b` with the bits selected by `mask` replaced by those of `bits`
/// (which must lie inside `mask`).
pub open spec fn with_bits(b: u8, mask: u8, bits: u8) -> u8 {
    (b & !mask) | bits
}

/// A copy of the CRT controller's registers, edited field by field and then
/// written back as a whole.
pub struct CrtcRegs {
    pub regs: [u8; 0x20],
}

impl CrtcRegs {
    /// A register file holding the given values (as read from the hardware).
    pub fn from_values(regs: [u8; 0x20]) -> (r: CrtcRegs)
        ensures
            r.regs@ == regs@,
    {
        CrtcRegs { regs }
    }

    /// The register values, in index order, to be written back.
    pub fn values(&self) -> (r: [u8; 0x20])
        ensures
            r@ == self.regs@,
    {
        self.regs
    }

    /// CR0: horizontal total.
    pub fn set_h_total(&mut self, val: u16)
        requires
            val <= 0xFF,
        ensures
            final(self).regs@ == old(self).regs@.update(0, val as u8),
    {
        self.regs[0] = val as u8;
    }

    /// CR1: horizontal display end.
    pub fn set_h_disp_end(&mut self, val: u16)
        requires
            val <= 0xFF,
        ensures
            final(self).regs@ == old(self).regs@.update(1, val as u8),
    {
        self.regs[1] = val as u8;
    }

    /// CR2: horizontal blanking start.
    pub fn set_h_blank_start(&mut self, val: u16)
        requires
            val <= 0xFF,
        ensures
            final(self).regs@ == old(self).regs@.update(2, val as u8),
    {
        self.regs[2] = val as u8;
    }

    /// CR3[0..5] and CR5[7]: horizontal blanking length (six bits).
    pub fn set_h_blank_len(&mut self, val: u16)
        requires
            val <= 0x3F,
        ensures
            final(self).regs@ == old(self).regs@
                .update(3, with_bits(old(self).regs[3], 0x1F, (val & 0x1F) as u8))
                .update(5, with_bits(old(self).regs[5], 0x80, bit_of(val, 5) << 7u8)),
    {
        let r3 = self.regs[3];
        self.regs[3] = (r3 & !0x1Fu8) | (val & 0x1F) as u8;
        let r5 = self.regs[5];
        self.regs[5] = (r5 & !0x80u8) | ((((val >> 5) & 1) as u8) << 7u8);
    }

    /// CR4 and CR1A[4]: horizontal sync start (nine bits).
    pub fn set_h_sync_start(&mut self, val: u16)
        requires
            val <= 0x1FF,
        ensures
            final(self).regs@ == old(self).regs@
                .update(4, (val & 0xFF) as u8)
                .update(0x1A, with_bits(old(self).regs[0x1A], 0x10, bit_of(val, 8) << 4u8)),
    {
        self.regs[4] = (val & 0xFF) as u8;
        let r = self.regs[0x1A];
        self.regs[0x1A] = (r & !0x10u8) | ((((val >> 8) & 1) as u8) << 4u8);
    }

    /// CR5[0..5]: horizontal sync end (five bits).
    pub fn set_h_sync_end(&mut self, val: u16)
        requires
            val <= 0x1F,
        ensures
            final(self).regs@ == old(self).regs@.update(5, with_bits(old(self).regs[5], 0x1F, val as u8)),
    {
        let r = self.regs[5];
        self.regs[5] = (r & !0x1Fu8) | val as u8;
    }

    /// CR6 and CR7[0], CR7[5]: vertical total (ten bits).
    pub fn set_v_total(&mut self, val: u16)
        requires
            val <= 0x3FF,
        ensures
            final(self).regs@ == old(self).regs@
                .update(6, (val & 0xFF) as u8)
                .update(7, with_bits(old(self).regs[7], 0x21, bit_of(val, 8) | (bit_of(val, 9) << 5u8))),
    {
        self.regs[6] = (val & 0xFF) as u8;
        let r = self.regs[7];
        self.regs[7] = (r & !0x21u8) | ((((val >> 8) & 1) as u8) | ((((val >> 9) & 1) as u8) << 5u8));
    }

    /// CR12 and CR7[1], CR7[6]: vertical display end (ten bits).
    pub fn set_v_disp_end(&mut self, val: u16)
        requires
            val <= 0x3FF,
        ensures
            final(self).regs@ == old(self).regs@
                .update(0x12, (val & 0xFF) as u8)
                .update(7, with_bits(old(self).regs[7], 0x42, (bit_of(val, 8) << 1u8) | (bit_of(val, 9) << 6u8))),
    {
        self.regs[0x12] = (val & 0xFF) as u8;
        let r = self.regs[7];
        self.regs[7] = (r & !0x42u8) | (((((val >> 8) & 1) as u8) << 1u8) | ((((val >> 9) & 1) as u8) << 6u8));
    }

    /// CR15, CR7[3] and CR9[5]: vertical blanking start (ten bits).
    pub fn set_v_blank_start(&mut self, val: u16)
        requires
            val <= 0x3FF,
        ensures
            final(self).regs@ == old(self).regs@
                .update(0x15, (val & 0xFF) as u8)
                .update(7, with_bits(old(self).regs[7], 0x08, bit_of(val, 8) << 3u8))
                .update(9, with_bits(old(self).regs[9], 0x20, bit_of(val, 9) << 5u8)),
    {
        self.regs[0x15] = (val & 0xFF) as u8;
        let r7 = self.regs[7];
        self.regs[7] = (r7 & !0x08u8) | ((((val >> 8) & 1) as u8) << 3u8);
        let r9 = self.regs[9];
        self.regs[9] = (r9 & !0x20u8) | ((((val >> 9) & 1) as u8) << 5u8);
    }

    /// CR16 and CR1A[6..8]: vertical blanking end (ten bits).
    pub fn set_v_blank_end(&mut self, val: u16)
        requires
            val <= 0x3FF,
        ensures
            final(self).regs@ == old(self).regs@
                .update(0x16, (val & 0xFF) as u8)
                .update(0x1A, with_bits(old(self).regs[0x1A], 0xC0, (((val >> 8u16) & 3) as u8) << 6u8)),
    {
        self.regs[0x16] = (val & 0xFF) as u8;
        let r = self.regs[0x1A];
        self.regs[0x1A] = (r & !0xC0u8) | ((((val >> 8u16) & 3) as u8) << 6u8);
    }

    /// CR10 and CR7[2], CR7[7]: vertical sync start (ten bits).
    pub fn set_v_sync_start(&mut self, val: u16)
        requires
            val <= 0x3FF,
        ensures
            final(self).regs@ == old(self).regs@
                .update(0x10, (val & 0xFF) as u8)
                .update(7, with_bits(old(self).regs[7], 0x84, (bit_of(val, 8) << 2u8) | (bit_of(val, 9) << 7u8))),
    {
        self.regs[0x10] = (val & 0xFF) as u8;
        let r = self.regs[7];
        self.regs[7] = (r & !0x84u8) | (((((val >> 8) & 1) as u8) << 2u8) | ((((val >> 9) & 1) as u8) << 7u8));
    }

    /// CR11[0..4]: vertical sync end (four bits).
    pub fn set_v_sync_end(&mut self, val: u16)
        requires
            val <= 0xF,
        ensures
            final(self).regs@ == old(self).regs@.update(0x11, with_bits(old(self).regs[0x11], 0x0F, val as u8)),
    {
        let r = self.regs[0x11];
        self.regs[0x11] = (r & !0x0Fu8) | val as u8;
    }

    /// CR18, CR7[4] and CR9[6]: line compare, the scan line where the first
    /// screen ends and the second starts.
    pub fn set_line_compare(&mut self, val: u16)
        requires
            val < 0x3FF,
        ensures
            final(self).regs@ == old(self).regs@
                .update(0x18, (val & 0xFF) as u8)
                .update(7, with_bits(old(self).regs[7], 0x10, bit_of(val, 8) << 4u8))
                .update(9, with_bits(old(self).regs[9], 0x40, bit_of(val, 9) << 6u8)),
    {
        self.regs[0x18] = (val & 0xFF) as u8;
        let r7 = self.regs[7];
        self.regs[7] = (r7 & !0x10u8) | ((((val >> 8) & 1) as u8) << 4u8);
        let r9 = self.regs[9];
        self.regs[9] = (r9 & !0x40u8) | ((((val >> 9) & 1) as u8) << 6u8);
    }

    /// CR13 and CR1B[4]: offset between lines (nine bits).
    pub fn set_offset(&mut self, val: u16)
        requires
            val < 0x1FF,
        ensures
            final(self).regs@ == old(self).regs@
                .update(0x13, (val & 0xFF) as u8)
                .update(0x1B, with_bits(old(self).regs[0x1B], 0x10, bit_of(val, 8) << 4u8)),
    {
        self.regs[0x13] = (val & 0xFF) as u8;
        let r = self.regs[0x1B];
        self.regs[0x1B] = (r & !0x10u8) | ((((val >> 8) & 1) as u8) << 4u8);
    }

    /// CR8[5..7]: byte panning (the low two bits of `val`).
    pub fn set_byte_pan(&mut self, val: u8)
        ensures
            final(self).regs@ == old(self).regs@.update(8, with_bits(old(self).regs[8], 0x60, (val & 3) << 5u8)),
    {
        let r = self.regs[8];
        self.regs[8] = (r & !0x60u8) | ((val & 3) << 5u8);
    }

    /// CRC (high byte) and CRD (low byte): screen start address.
    pub fn set_screen_start(&mut self, val: u16)
        ensures
            final(self).regs@ == old(self).regs@.update(0xC, (val >> 8u16) as u8).update(0xD, (val & 0xFF) as u8),
    {
        self.regs[0xC] = (val >> 8u16) as u8;
        self.regs[0xD] = (val & 0xFF) as u8;
    }
}

} // verus!
